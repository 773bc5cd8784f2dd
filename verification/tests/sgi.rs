use panda3d::bytes::{DataError, Endian, Reader};
use panda3d::sgi::{SgiError, SgiHeader, SgiImageLoader, TextureDimension, TextureFormat};

fn header(compression: u8, bpp: u8, dimension: u16, width: u16, height: u16, channels: u16) -> Vec<u8> {
    let mut v = vec![0x01, 0xDA, compression, bpp];
    v.extend_from_slice(&dimension.to_be_bytes());
    v.extend_from_slice(&width.to_be_bytes());
    v.extend_from_slice(&height.to_be_bytes());
    v.extend_from_slice(&channels.to_be_bytes());
    v.extend_from_slice(&0u32.to_be_bytes());
    v.extend_from_slice(&255u32.to_be_bytes());
    v.extend_from_slice(&0u32.to_be_bytes());
    v.extend_from_slice(&[b'n'; 80]);
    v.extend_from_slice(&0u32.to_be_bytes());
    v.extend_from_slice(&[0u8; 404]);
    assert_eq!(v.len(), 512);
    v
}

#[test]
fn raw_grayscale_is_flipped_to_top_row_first() {
    let mut file = header(0, 1, 2, 2, 2, 1);
    file.extend_from_slice(&[1, 2, 3, 4]);
    let image = SgiImageLoader.decode(&file).unwrap();
    assert_eq!(image.width, 2);
    assert_eq!(image.height, 2);
    assert_eq!(image.format, TextureFormat::R8Unorm);
    assert_eq!(image.dimension, TextureDimension::D2);
    assert_eq!(image.data, vec![3, 4, 1, 2]);
}

#[test]
fn run_length_rows_decode() {
    let mut file = header(1, 1, 2, 2, 2, 1);
    let table_end = 512 + 2 * 4 * 2;
    let row0 = [0x02u8, 7, 0];
    let row1 = [0x82u8, 5, 6, 0];
    let off0 = table_end as u32;
    let off1 = off0 + row0.len() as u32;
    file.extend_from_slice(&off0.to_be_bytes());
    file.extend_from_slice(&off1.to_be_bytes());
    file.extend_from_slice(&(row0.len() as u32).to_be_bytes());
    file.extend_from_slice(&(row1.len() as u32).to_be_bytes());
    file.extend_from_slice(&row0);
    file.extend_from_slice(&row1);
    let image = SgiImageLoader.decode(&file).unwrap();
    assert_eq!(image.data, vec![5, 6, 7, 7]);
}

#[test]
fn run_length_with_two_byte_samples() {
    let mut file = header(1, 2, 1, 3, 1, 1);
    let table_end = 512 + 8;
    // Run of two samples 0x0102, then a copy of one sample 0x0304, then the end.
    let row = [0x00u8, 0x02, 0x01, 0x02, 0x00, 0x81, 0x03, 0x04, 0x00, 0x00];
    file.extend_from_slice(&(table_end as u32).to_be_bytes());
    file.extend_from_slice(&(row.len() as u32).to_be_bytes());
    file.extend_from_slice(&row);
    let image = SgiImageLoader.decode(&file).unwrap();
    assert_eq!(image.format, TextureFormat::R16Unorm);
    assert_eq!(image.dimension, TextureDimension::D1);
    assert_eq!(image.data, vec![1, 2, 1, 2, 3, 4]);
}

#[test]
fn rgb_gains_an_opaque_alpha_channel() {
    let mut file = header(0, 1, 3, 2, 1, 3);
    file.extend_from_slice(&[10, 20, 30, 40, 50, 60]);
    let image = SgiImageLoader.decode(&file).unwrap();
    assert_eq!(image.format, TextureFormat::Rgba8Unorm);
    assert_eq!(image.dimension, TextureDimension::D3);
    assert_eq!(image.data, vec![10, 30, 50, 255, 20, 40, 60, 255]);
}

#[test]
fn rgba_keeps_its_alpha() {
    let mut file = header(0, 1, 2, 1, 1, 4);
    file.extend_from_slice(&[1, 2, 3, 4]);
    let image = SgiImageLoader.decode(&file).unwrap();
    assert_eq!(image.data, vec![1, 2, 3, 4]);
}

#[test]
fn sgi_header_errors() {
    let mut bad_magic = header(0, 1, 2, 1, 1, 1);
    bad_magic[1] = 0;
    assert_eq!(SgiImageLoader.decode(&bad_magic).err(), Some(SgiError::InvalidMagic));
    let bpp = header(0, 3, 2, 1, 1, 1);
    assert_eq!(SgiImageLoader.decode(&bpp).err(), Some(SgiError::UnsupportedBytesPerPixel(3)));
    let dim = header(0, 1, 4, 1, 1, 1);
    assert_eq!(SgiImageLoader.decode(&dim).err(), Some(SgiError::InvalidDimension(4)));
    let ch = header(0, 1, 2, 1, 1, 2);
    assert_eq!(SgiImageLoader.decode(&ch).err(), Some(SgiError::UnsupportedChannels(2)));
    let short = header(0, 1, 2, 1, 1, 1)[..100].to_vec();
    assert_eq!(SgiImageLoader.decode(&short).err(), Some(SgiError::DataError(DataError::EndOfFile)));
}

#[test]
fn missing_pixel_data_is_end_of_file() {
    let mut file = header(0, 1, 2, 2, 2, 1);
    file.extend_from_slice(&[1, 2, 3]);
    assert_eq!(SgiImageLoader.decode(&file).err(), Some(SgiError::DataError(DataError::EndOfFile)));
    let rle = header(1, 1, 2, 2, 2, 1);
    assert_eq!(SgiImageLoader.decode(&rle).err(), Some(SgiError::DataError(DataError::EndOfFile)));
}

#[test]
fn header_fields_are_read_big_endian() {
    let file = header(1, 2, 3, 300, 2, 4);
    let mut r = Reader::new(&file, Endian::Big);
    let h = SgiHeader::read(&mut r).unwrap();
    assert_eq!(h.compression, 1);
    assert_eq!(h.bytes_per_pixel, 2);
    assert_eq!(h.dimension, 3);
    assert_eq!(h.width, 300);
    assert_eq!(h.height, 2);
    assert_eq!(h.channels, 4);
    assert_eq!(h.max_value, 255);
    assert_eq!(r.position(), 512);
}

#[test]
fn extensions_are_listed() {
    assert_eq!(SgiImageLoader.extensions(), vec!["sgi", "rgb", "rgba", "bw", "int", "inta"]);
}

fn rle_header(width: u16) -> SgiHeader {
    SgiHeader {
        compression: 1,
        bytes_per_pixel: 1,
        dimension: 2,
        width,
        height: 1,
        channels: 1,
        min_value: 0,
        max_value: 255,
        colormap: 0,
    }
}

#[test]
fn run_length_tables_are_read_where_the_reader_stands() {
    let data = vec![0, 0, 0, 8, 0, 0, 0, 5, 0x02, 0xAA, 0x81, 0xBB, 0x00];
    let mut r = Reader::new(&data, Endian::Big);
    assert_eq!(SgiImageLoader.decode_rle(&mut r, &rle_header(3)), Ok(vec![0xAA, 0xAA, 0xBB]));
    // A shorter row is padded with zeros to the full width.
    let mut r = Reader::new(&data, Endian::Big);
    assert_eq!(SgiImageLoader.decode_rle(&mut r, &rle_header(5)), Ok(vec![0xAA, 0xAA, 0xBB, 0, 0]));
}

#[test]
fn corrupt_run_length_rows_are_refused() {
    // A row that decodes to more samples than the width.
    let data = vec![0, 0, 0, 8, 0, 0, 0, 5, 0x02, 0xAA, 0x81, 0xBB, 0x00];
    let mut r = Reader::new(&data, Endian::Big);
    assert_eq!(SgiImageLoader.decode_rle(&mut r, &rle_header(2)), Err(SgiError::InvalidRleData));
    // A run without its value.
    let data = vec![0, 0, 0, 8, 0, 0, 0, 1, 0x02];
    let mut r = Reader::new(&data, Endian::Big);
    assert_eq!(SgiImageLoader.decode_rle(&mut r, &rle_header(3)), Err(SgiError::InvalidRleData));
    // A literal count beyond the row's bytes.
    let data = vec![0, 0, 0, 8, 0, 0, 0, 3, 0x83, 1, 2];
    let mut r = Reader::new(&data, Endian::Big);
    assert_eq!(SgiImageLoader.decode_rle(&mut r, &rle_header(3)), Err(SgiError::InvalidRleData));
    // A row stored past the end of the data is a short file, not corrupt data.
    let data = vec![0, 0, 0, 8, 0, 0, 0, 9, 0x02, 0xAA];
    let mut r = Reader::new(&data, Endian::Big);
    assert_eq!(SgiImageLoader.decode_rle(&mut r, &rle_header(3)), Err(SgiError::DataError(DataError::EndOfFile)));
}

#[test]
fn a_header_is_read_where_the_reader_stands() {
    let mut file = vec![9, 9, 9];
    file.extend_from_slice(&header(0, 1, 2, 7, 5, 3));
    let mut r = Reader::new(&file, Endian::Big);
    r.set_position(3).unwrap();
    let h = SgiHeader::read(&mut r).unwrap();
    assert_eq!((h.width, h.height, h.channels), (7, 5, 3));
    assert_eq!(r.position(), 515);
}

#[test]
fn multi_row_rgb_is_interleaved_and_flipped() {
    // Two rows, two columns, three channels: planes of R, G, B, each bottom row first.
    let mut file = header(0, 1, 2, 2, 2, 3);
    file.extend_from_slice(&[1, 2, 3, 4]); // R
    file.extend_from_slice(&[11, 12, 13, 14]); // G
    file.extend_from_slice(&[21, 22, 23, 24]); // B
    let image = SgiImageLoader.decode(&file).unwrap();
    assert_eq!(image.format, TextureFormat::Rgba8Unorm);
    assert_eq!(
        image.data,
        vec![3, 13, 23, 255, 4, 14, 24, 255, 1, 11, 21, 255, 2, 12, 22, 255]
    );
}

#[test]
fn multi_row_rgba_with_two_byte_samples() {
    // One column, two rows, four channels of two bytes.
    let mut file = header(0, 2, 2, 1, 2, 4);
    for c in 0..4u8 {
        for row in 0..2u8 {
            file.extend_from_slice(&[c, row]);
        }
    }
    let image = SgiImageLoader.decode(&file).unwrap();
    assert_eq!(image.format, TextureFormat::Rgba16Unorm);
    assert_eq!(image.data, vec![0, 1, 1, 1, 2, 1, 3, 1, 0, 0, 1, 0, 2, 0, 3, 0]);
}
