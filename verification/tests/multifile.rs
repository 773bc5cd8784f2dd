use panda3d::bytes::{Endian, Reader};
use panda3d::multifile::{Error, Multifile};
use panda3d::multifile2::{Error as Error2, Multifile as Multifile2};
use panda3d::subfile::{unmask_bytes, Flags, COMPRESSED, SIGNATURE};

fn push_u16(v: &mut Vec<u8>, x: u16) {
    v.extend_from_slice(&x.to_le_bytes());
}

fn push_u32(v: &mut Vec<u8>, x: u32) {
    v.extend_from_slice(&x.to_le_bytes());
}

fn header(v: &mut Vec<u8>, minor: u16, scale: u32, timestamp: u32) {
    v.extend_from_slice(b"pmf\0\n\r");
    push_u16(v, 1);
    push_u16(v, minor);
    push_u32(v, scale);
    if minor >= 1 {
        push_u32(v, timestamp);
    }
}

fn masked(name: &str) -> Vec<u8> {
    name.bytes().map(|b| 255 - b).collect()
}

/// One entry per (name, data, attributes, timestamp); the data follows the index.
fn archive(files: &[(&str, &[u8], u16, u32)]) -> Vec<u8> {
    let mut v = Vec::new();
    header(&mut v, 1, 1, 1234);
    let mut entry_sizes = Vec::new();
    for (name, _, attr, _) in files {
        let processed = attr & (COMPRESSED | 16) != 0;
        entry_sizes.push(4 + 4 + 4 + 2 + if processed { 4 } else { 0 } + 4 + 2 + name.len());
    }
    let index_end = v.len() + entry_sizes.iter().sum::<usize>() + 4;
    let mut data_pos = index_end;
    for (i, (name, data, attr, ts)) in files.iter().enumerate() {
        let next = v.len() + entry_sizes[i];
        push_u32(&mut v, next as u32);
        push_u32(&mut v, data_pos as u32);
        push_u32(&mut v, data.len() as u32);
        push_u16(&mut v, *attr);
        if attr & (COMPRESSED | 16) != 0 {
            push_u32(&mut v, data.len() as u32 * 2);
        }
        push_u32(&mut v, *ts);
        push_u16(&mut v, name.len() as u16);
        v.extend_from_slice(&masked(name));
        data_pos += data.len();
    }
    push_u32(&mut v, 0);
    for (_, data, _, _) in files {
        v.extend_from_slice(data);
    }
    v
}

#[test]
fn load_reads_every_entry() {
    let bytes = archive(&[("a.txt", b"hello", 0, 0), ("b/c.bin", b"xyz", 0, 99)]);
    let mut m = Multifile::load(bytes, 0).unwrap();
    assert_eq!(m.count(), 2);
    assert_eq!(m.version().major, 1);
    assert_eq!(m.version().minor, 1);
    assert_eq!(m.timestamp(), 1234);
    assert_eq!(m.subfile(0).path, "a.txt");
    assert_eq!(m.subfile(1).path, "b/c.bin");
    assert_eq!(m.subfile_data(0).unwrap(), b"hello");
    assert_eq!(m.subfile_data(1).unwrap(), b"xyz");
}

#[test]
fn missing_timestamp_takes_the_archive_time() {
    let bytes = archive(&[("a.txt", b"hello", 0, 0), ("b", b"x", 0, 99)]);
    let m = Multifile::load(bytes, 0).unwrap();
    assert_eq!(m.subfile(0).timestamp, 1234);
    assert_eq!(m.subfile(1).timestamp, 99);
}

#[test]
fn comment_lines_before_the_header_are_skipped() {
    let plain = archive(&[("a.txt", b"hello", 0, 0)]);
    let mut bytes = b"#! /usr/bin/env panda3d\n  \r# second\n".to_vec();
    let start = bytes.len();
    // Offsets in the index are absolute, so shift them by the prefix.
    let mut shifted = plain.clone();
    let mut p = 18usize;
    loop {
        let next = u32::from_le_bytes(shifted[p..p + 4].try_into().unwrap());
        if next == 0 {
            break;
        }
        shifted[p..p + 4].copy_from_slice(&(next + start as u32).to_le_bytes());
        let off = u32::from_le_bytes(shifted[p + 4..p + 8].try_into().unwrap());
        shifted[p + 4..p + 8].copy_from_slice(&(off + start as u32).to_le_bytes());
        p = next as usize;
    }
    bytes.extend_from_slice(&shifted);
    assert_eq!(Multifile::parse_header_prefix(&bytes), start);
    let m = Multifile::load(bytes, 0).unwrap();
    assert_eq!(m.subfile_data(0).unwrap(), b"hello");
}

#[test]
fn parse_header_prefix_without_comments_is_zero() {
    assert_eq!(Multifile::parse_header_prefix(b"pmf\0\n\r"), 0);
    assert_eq!(Multifile::parse_header_prefix(b"# only a comment"), 16);
}

#[test]
fn bad_magic_is_refused() {
    let mut bytes = archive(&[("a", b"1", 0, 0)]);
    bytes[0] = b'x';
    assert!(matches!(Multifile::load(bytes, 0), Err(Error::InvalidMagic)));
}

#[test]
fn newer_version_is_refused() {
    let mut bytes = Vec::new();
    bytes.extend_from_slice(b"pmf\0\n\r");
    push_u16(&mut bytes, 2);
    push_u16(&mut bytes, 0);
    push_u32(&mut bytes, 1);
    assert!(matches!(Multifile::load(bytes, 0), Err(Error::UnknownVersion)));
}

#[test]
fn truncated_archive_is_end_of_file() {
    let bytes = archive(&[("a.txt", b"hello", 0, 0)]);
    let cut = bytes[..25].to_vec();
    assert!(matches!(Multifile::load(cut, 0), Err(Error::EndOfFile)));
    assert!(matches!(Multifile::load(Vec::new(), 0), Err(Error::EndOfFile)));
    assert!(matches!(Multifile::load(b"pmf".to_vec(), 10), Err(Error::EndOfFile)));
}

#[test]
fn cyclic_index_is_refused() {
    let mut bytes = archive(&[("a.txt", b"hello", 0, 0)]);
    // Point the entry's next link back at itself.
    bytes[18..22].copy_from_slice(&18u32.to_le_bytes());
    assert!(matches!(Multifile::load(bytes, 0), Err(Error::CyclicIndex)));
}

#[test]
fn scale_factor_multiplies_offsets() {
    let mut v = Vec::new();
    header(&mut v, 1, 4, 7);
    // Entry at 18, data at 48 (12 * 4), index terminator at 40 (10 * 4).
    push_u32(&mut v, 10);
    push_u32(&mut v, 12);
    push_u32(&mut v, 3);
    push_u16(&mut v, 0);
    push_u32(&mut v, 0);
    push_u16(&mut v, 1);
    v.extend_from_slice(&masked("s"));
    while v.len() < 40 {
        v.push(0);
    }
    push_u32(&mut v, 0);
    while v.len() < 48 {
        v.push(0);
    }
    v.extend_from_slice(b"abc");
    let m = Multifile::load(v, 0).unwrap();
    assert_eq!(m.subfile(0).offset, 48);
    assert_eq!(m.subfile_data(0).unwrap(), b"abc");
}

#[test]
fn version_zero_has_no_timestamps() {
    let mut v = Vec::new();
    header(&mut v, 0, 1, 0);
    assert_eq!(v.len(), 14);
    let entry = 4 + 4 + 4 + 2 + 2 + 1;
    push_u32(&mut v, (14 + entry) as u32);
    push_u32(&mut v, (14 + entry + 4) as u32);
    push_u32(&mut v, 2);
    push_u16(&mut v, 0);
    push_u16(&mut v, 1);
    v.extend_from_slice(&masked("z"));
    push_u32(&mut v, 0);
    v.extend_from_slice(b"hi");
    let m = Multifile::load(v, 0).unwrap();
    assert_eq!(m.timestamp(), 0);
    assert_eq!(m.subfile(0).timestamp, 0);
    assert_eq!(m.subfile_data(0).unwrap(), b"hi");
}

#[test]
fn extractable_files_leave_out_signatures_and_processed_data() {
    let bytes = archive(&[
        ("plain", b"p", 0, 0),
        ("packed", b"c", COMPRESSED, 0),
        ("sig", b"ssssssss", SIGNATURE, 0),
    ]);
    let m = Multifile::load(bytes, 0).unwrap();
    assert_eq!(m.extractable_files(), vec![0]);
    let (compressed, encrypted) = m.processed_counts();
    assert_eq!(compressed, 1);
    assert_eq!(encrypted, 0);
    assert_eq!(m.subfile(1).original_length, 2);
}

#[test]
fn extraction_plan_stops_at_data_out_of_range() {
    let mut bytes = archive(&[("a", b"12345", 0, 0)]);
    bytes.truncate(bytes.len() - 2);
    let (files, err) = Multifile::extraction_plan(&bytes, 0);
    assert!(files.is_empty());
    assert!(matches!(err, Some(Error::EndOfFile)));
    let whole = archive(&[("a", b"12345", 0, 0)]);
    let (files, err) = Multifile::extraction_plan(&whole, 0);
    assert_eq!(files.len(), 1);
    assert!(err.is_none());
}

#[test]
fn signature_layout_reads_the_certificate_count() {
    let mut sig = Vec::new();
    push_u32(&mut sig, 3);
    sig.extend_from_slice(b"abc");
    push_u32(&mut sig, 2);
    assert_eq!(Multifile::signature_layout(&sig).unwrap(), (2, 11));
    assert!(matches!(Multifile::signature_layout(&sig[..5]), Err(Error::EndOfFile)));
}

#[test]
fn read_header_reports_scale_and_time() {
    let mut v = Vec::new();
    header(&mut v, 1, 3, 55);
    let mut r = Reader::new(&v, Endian::Little);
    let h = Multifile::read_header(&mut r).unwrap();
    assert_eq!(h.scale_factor, 3);
    assert_eq!(h.timestamp, 55);
    assert_eq!(r.position(), 18);
}

#[test]
fn unmask_is_its_own_inverse() {
    let raw = masked("models/panda.egg");
    let once = unmask_bytes(&raw);
    assert_eq!(once, b"models/panda.egg");
    assert_eq!(unmask_bytes(&unmask_bytes(&once)), once);
}

#[test]
fn flags_drop_unknown_bits() {
    let f = Flags::from_bits_truncate(0xFFFF);
    assert_eq!(f.bits, 127);
    assert!(f.contains(COMPRESSED | SIGNATURE));
    assert!(!Flags::from_bits_truncate(0).intersects(COMPRESSED));
}

#[test]
fn stored_archive_keeps_paths_sorted_and_later_entries_win() {
    let bytes = archive(&[("b", b"first", 0, 0), ("a", b"x", 0, 0), ("b", b"second", 0, 0)]);
    let mut m = Multifile2::load(&bytes, 0).unwrap();
    assert_eq!(m.count(), 2);
    assert_eq!(m.entry(0).name, "a");
    assert_eq!(m.entry(1).name, "b");
    assert_eq!(m.entry(1).file.data, b"second");
    assert_eq!(m.entry(0).file.timestamp, 1234);
    assert!(m.is_extractable(0));
}

#[test]
fn stored_archive_errors_match_the_index_reader() {
    let mut bytes = archive(&[("a", b"1", 0, 0)]);
    bytes[1] = b'x';
    assert!(matches!(Multifile2::load(&bytes, 0), Err(Error2::InvalidMagic)));
    assert!(matches!(Multifile2::load(&[], 0), Err(Error2::EndOfFile)));
    let mut cyclic = archive(&[("a", b"1", 0, 0)]);
    cyclic[18..22].copy_from_slice(&18u32.to_le_bytes());
    assert!(matches!(Multifile2::load(&cyclic, 0), Err(Error2::CyclicIndex)));
}
