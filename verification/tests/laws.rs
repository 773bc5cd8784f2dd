use panda3d::bam::{BinaryAsset, Header};
use panda3d::bytes::{DataError, Endian, Reader};
use panda3d::common::Version;
use panda3d::datagram::Datagram;
use panda3d::nodes::attribs::{CullFaceAttrib, DecalEffect, DepthWriteAttrib};
use panda3d::nodes::enums::{Contents, CullMode, DepthMode, NumericType};
use panda3d::nodes::geom::GeomVertexColumn;
use panda3d::nodes::graph::connections;
use panda3d::nodes::storage::{NodeStorage, StoredNode};

fn attrib(mode: CullMode, reverse: bool) -> CullFaceAttrib {
    CullFaceAttrib { mode, reverse }
}

#[test]
fn reversing_flips_the_effective_winding() {
    for mode in [CullMode::CullNone, CullMode::Clockwise, CullMode::CounterClockwise, CullMode::Unchanged] {
        let plain = attrib(mode, false).get_effective_mode();
        let reversed = attrib(mode, true).get_effective_mode();
        let flipped = match plain {
            CullMode::Clockwise => CullMode::CounterClockwise,
            CullMode::CounterClockwise => CullMode::Clockwise,
            other => other,
        };
        assert_eq!(reversed, flipped);
        assert_ne!(plain, CullMode::Unchanged);
    }
    assert_eq!(attrib(CullMode::Unchanged, false).get_effective_mode(), CullMode::Clockwise);
}

#[test]
fn depth_write_follows_the_mode() {
    assert!(DepthWriteAttrib { mode: DepthMode::On }.depth_write_enabled());
    assert!(!DepthWriteAttrib { mode: DepthMode::Off }.depth_write_enabled());
}

fn loader(use_double: bool) -> BinaryAsset {
    BinaryAsset::new(Header { version: Version { major: 6, minor: 45 }, endian: Endian::Little, use_double })
}

fn raw_column(numeric_type: NumericType, contents: Contents, components: u8, start: u16, align: u8) -> GeomVertexColumn {
    GeomVertexColumn {
        name_ref: 0,
        num_components: components,
        numeric_type,
        contents,
        start,
        column_alignment: align,
        num_elements: 0,
        element_stride: 0,
        num_values: 0,
        component_bytes: 0,
        total_bytes: 0,
    }
}

#[test]
fn column_setup_aligns_and_is_idempotent() {
    let l = loader(true);
    let mut c = raw_column(NumericType::StdFloat, Contents::Matrix, 4, 13, 0);
    c.setup(&l).unwrap();
    assert_eq!(c.numeric_type, NumericType::F64);
    assert_eq!(c.component_bytes, 8);
    assert_eq!(c.column_alignment, 8);
    assert_eq!(c.start, 16);
    assert_eq!(c.num_elements, 4);
    assert_eq!(c.element_stride, 32);
    assert_eq!(c.total_bytes, 128);
    let once = c;
    c.setup(&l).unwrap();
    assert_eq!(c, once);
    let mut packed = raw_column(NumericType::PackedDCBA, Contents::Color, 1, 0, 1);
    packed.setup(&loader(false)).unwrap();
    assert_eq!(packed.num_values, 4);
    assert_eq!(packed.start, 0);
}

#[test]
fn column_start_past_sixteen_bits_overflows() {
    let mut c = raw_column(NumericType::U8, Contents::Other, 1, 65535, 2);
    assert!(c.setup(&loader(false)).is_err());
}

#[test]
fn string_read_takes_length_and_bytes() {
    let mut outer = vec![8, 0, 0, 0, 5, 0];
    outer.extend_from_slice(b"hello");
    outer.push(7);
    let mut r = Reader::new(&outer, Endian::Little);
    let mut d = Datagram::new(&mut r, Endian::Little, false).unwrap();
    assert_eq!(r.position(), 12);
    assert_eq!(d.read_string().unwrap(), "hello");
    assert_eq!(d.position(), 7);
    assert_eq!(d.read_u8().unwrap(), 7);
    assert_eq!(d.read_u8(), Err(DataError::EndOfFile));
}

#[test]
fn invalid_utf8_is_refused() {
    let outer = vec![4, 0, 0, 0, 2, 0, 0xFF, 0xFE];
    let mut r = Reader::new(&outer, Endian::Little);
    let mut d = Datagram::new(&mut r, Endian::Little, false).unwrap();
    assert_eq!(d.read_string(), Err(DataError::InvalidStr));
}

#[test]
fn floats_take_four_or_eight_bytes() {
    let mut outer = vec![16, 0, 0, 0];
    outer.extend_from_slice(&1.0f32.to_le_bytes());
    outer.extend_from_slice(&0u32.to_le_bytes());
    outer.extend_from_slice(&1.0f64.to_le_bytes());
    let mut r = Reader::new(&outer, Endian::Little);
    let mut d = Datagram::new(&mut r, Endian::Little, false).unwrap();
    assert_eq!(d.read_floats(2).unwrap().len(), 2);
    assert_eq!(d.position(), 8);
    let mut r = Reader::new(&outer, Endian::Little);
    let mut d = Datagram::new(&mut r, Endian::Little, true).unwrap();
    d.read_u32().unwrap();
    d.read_u32().unwrap();
    let f = d.read_float().unwrap();
    assert_eq!(f, panda3d::datagram::FloatBits::Double(1.0f64.to_bits()));
    assert_eq!(d.position(), 16);
}

#[test]
fn stored_objects_are_found_at_their_index() {
    let mut s = NodeStorage::new();
    assert_eq!(s.push(StoredNode::DecalEffect(DecalEffect {})), 0);
    assert_eq!(s.push(StoredNode::DepthWriteAttrib(DepthWriteAttrib { mode: DepthMode::Off })), 1);
    assert_eq!(s.len(), 2);
    assert!(matches!(s.get(0), Some(StoredNode::DecalEffect(_))));
    match s.get(1) {
        Some(StoredNode::DepthWriteAttrib(a)) => assert_eq!(a.mode, DepthMode::Off),
        _ => panic!("expected the second object"),
    }
    assert!(s.get(2).is_none());
}

#[test]
fn connections_follow_references() {
    let node = StoredNode::DecalEffect(DecalEffect {});
    assert!(connections(&node).is_empty());
}
