use panda3d::bam::{BinaryAsset, Error, ObjectsLeft};
use panda3d::bam2::{BinaryAsset as BinaryAsset2, Error as Error2};
use panda3d::datagram::FloatBits;
use panda3d::nodes::enums::{BoundsType, CullMode, DepthMode, NumericType, UsageHint};
use panda3d::nodes::storage::StoredNode;

fn u16le(v: &mut Vec<u8>, x: u16) {
    v.extend_from_slice(&x.to_le_bytes());
}

fn u32le(v: &mut Vec<u8>, x: u32) {
    v.extend_from_slice(&x.to_le_bytes());
}

fn string(v: &mut Vec<u8>, s: &str) {
    u16le(v, s.len() as u16);
    v.extend_from_slice(s.as_bytes());
}

fn datagram(out: &mut Vec<u8>, body: &[u8]) {
    u32le(out, body.len() as u32);
    out.extend_from_slice(body);
}

/// Magic and header datagram of a little-endian file of version 6.`minor`.
fn file(minor: u16) -> Vec<u8> {
    let mut v = b"pbj\0\n\r".to_vec();
    let mut h = Vec::new();
    u16le(&mut h, 6);
    u16le(&mut h, minor);
    h.push(1);
    if minor >= 27 {
        h.push(0);
    }
    datagram(&mut v, &h);
    v
}

/// An object datagram body: control code (from 6.21), a new type with its name, object ID 1,
/// then the object's fields.
fn object(code: Option<u8>, handle: u16, name: &str, fields: &[u8]) -> Vec<u8> {
    let mut b = Vec::new();
    if let Some(c) = code {
        b.push(c);
    }
    u16le(&mut b, handle);
    string(&mut b, name);
    b.push(0);
    u16le(&mut b, 1);
    b.extend_from_slice(fields);
    b
}

fn pop() -> Vec<u8> {
    vec![1]
}

#[test]
fn loads_a_cull_face_attrib() {
    let mut v = file(45);
    datagram(&mut v, &object(Some(0), 5, "CullFaceAttrib", &[2, 1]));
    datagram(&mut v, &pop());
    let asset = BinaryAsset::load(v).unwrap();
    assert_eq!(asset.get_minor_version(), 45);
    assert_eq!(asset.nodes.len(), 1);
    match asset.nodes.get(0) {
        Some(StoredNode::CullFaceAttrib(a)) => {
            assert_eq!(a.mode, CullMode::CounterClockwise);
            assert!(a.reverse);
            assert_eq!(a.get_effective_mode(), CullMode::Clockwise);
        },
        _ => panic!("expected a CullFaceAttrib"),
    }
    assert_eq!(asset.objects_left, ObjectsLeft::NestingLevel { nesting_level: 0 });
}

#[test]
fn out_of_range_enum_bytes_take_the_default() {
    let mut v = file(45);
    datagram(&mut v, &object(Some(0), 5, "DepthWriteAttrib", &[9]));
    datagram(&mut v, &pop());
    let asset = BinaryAsset::load(v).unwrap();
    match asset.nodes.get(0) {
        Some(StoredNode::DepthWriteAttrib(a)) => {
            assert_eq!(a.mode, DepthMode::On);
            assert!(a.depth_write_enabled());
        },
        _ => panic!("expected a DepthWriteAttrib"),
    }
}

fn panda_node_fields(minor: u16, refs: [u16; 3], children: &[(u16, i32)]) -> Vec<u8> {
    let mut f = Vec::new();
    string(&mut f, "root");
    for r in refs {
        u16le(&mut f, r);
    }
    if minor >= 2 {
        u32le(&mut f, 0x1234);
        u32le(&mut f, 0xFFFF_0000);
    }
    u32le(&mut f, 7);
    if minor >= 19 {
        f.push(2);
    }
    u32le(&mut f, 2);
    string(&mut f, "k");
    string(&mut f, "v1");
    string(&mut f, "k");
    string(&mut f, "v2");
    u16le(&mut f, 0);
    u16le(&mut f, children.len() as u16);
    for (p, s) in children {
        u16le(&mut f, *p);
        f.extend_from_slice(&s.to_le_bytes());
    }
    u16le(&mut f, 0);
    f
}

#[test]
fn panda_node_fields_and_tags() {
    let mut v = file(45);
    let fields = panda_node_fields(45, [2, 3, 4], &[(6, -1)]);
    datagram(&mut v, &object(Some(0), 9, "PandaNode", &fields));
    datagram(&mut v, &pop());
    let asset = BinaryAsset::load(v).unwrap();
    match asset.nodes.get(0) {
        Some(StoredNode::PandaNode(n)) => {
            assert_eq!(n.name, "root");
            assert_eq!((n.state_ref, n.transform_ref, n.effects_ref), (1, 2, 3));
            assert_eq!(n.draw_control_mask, 0x1234);
            assert_eq!(n.draw_show_mask, 0xFFFF_0000);
            assert_eq!(n.into_collide_mask, 7);
            assert_eq!(n.bounds_type, BoundsType::Sphere);
            assert_eq!(n.tags(), vec![("k".to_string(), "v2".to_string())]);
            assert_eq!(n.child_refs, vec![(5, -1)]);
            assert!(n.parent_refs.is_empty());
        },
        _ => panic!("expected a PandaNode"),
    }
}

#[test]
fn model_root_reads_as_model_node() {
    let mut v = file(45);
    let mut fields = panda_node_fields(45, [1, 1, 1], &[]);
    fields.push(4);
    u16le(&mut fields, 0x0102);
    datagram(&mut v, &object(Some(0), 3, "ModelRoot", &fields));
    datagram(&mut v, &pop());
    let asset = BinaryAsset::load(v).unwrap();
    match asset.nodes.get(0) {
        Some(StoredNode::ModelNode(m)) => assert_eq!(m.attributes, 0x0102),
        _ => panic!("expected a ModelNode"),
    }
}

#[test]
fn null_required_pointer_is_refused() {
    let mut v = file(45);
    let fields = panda_node_fields(45, [0, 3, 4], &[]);
    datagram(&mut v, &object(Some(0), 9, "PandaNode", &fields));
    datagram(&mut v, &pop());
    assert_eq!(BinaryAsset::load(v).err(), Some(Error::NullPointer));
}

#[test]
fn unknown_and_unsupported_types() {
    let mut v = file(45);
    datagram(&mut v, &object(Some(0), 12, "NoSuchType", &[]));
    assert_eq!(BinaryAsset::load(v).err(), Some(Error::InvalidTypeHandle(12)));
    let mut v = file(45);
    datagram(&mut v, &object(Some(0), 13, "Texture", &[]));
    assert_eq!(BinaryAsset::load(v).err(), Some(Error::UnsupportedType(13)));
}

#[test]
fn bam_header_errors() {
    assert_eq!(BinaryAsset::load(b"pbj".to_vec()).err(), Some(Error::EndOfFile));
    assert_eq!(BinaryAsset::load(b"pbx\0\n\r".to_vec()).err(), Some(Error::InvalidMagic));
    assert_eq!(BinaryAsset::load(file(13)).err(), Some(Error::InvalidVersion));
    assert_eq!(BinaryAsset::load(file(46)).err(), Some(Error::InvalidVersion));
    let mut v = b"pbj\0\n\r".to_vec();
    u32le(&mut v, 10);
    assert!(matches!(BinaryAsset::load(v), Err(Error::DataError(_))));
}

#[test]
fn remove_code_is_unimplemented() {
    let mut v = file(45);
    datagram(&mut v, &[3]);
    assert_eq!(BinaryAsset::load(v).err(), Some(Error::Unimplemented));
}

#[test]
fn parent_types_are_registered() {
    // GeomNode derives from PandaNode: the handle lists one parent, itself new.
    let mut v = file(45);
    let mut b = vec![0u8];
    u16le(&mut b, 20);
    string(&mut b, "RenderEffects");
    b.push(1);
    u16le(&mut b, 21);
    string(&mut b, "TypedWritable");
    b.push(0);
    u16le(&mut b, 1);
    u16le(&mut b, 2);
    u16le(&mut b, 4);
    u16le(&mut b, 5);
    datagram(&mut v, &b);
    datagram(&mut v, &pop());
    let asset = BinaryAsset::load(v).unwrap();
    assert!(asset.type_registry.contains_key(20));
    assert!(asset.type_registry.contains_key(21));
    assert_eq!(asset.type_registry.get(21), Some("TypedWritable".to_string()));
    match asset.nodes.get(0) {
        Some(StoredNode::RenderEffects(e)) => assert_eq!(e.effect_refs, vec![3, 4]),
        _ => panic!("expected RenderEffects"),
    }
}

#[test]
fn objects_before_6_21_are_counted_by_pointers() {
    // Version 6.20: no control codes; the RenderEffects points at two more objects.
    let mut v = file(20);
    let mut b = Vec::new();
    u16le(&mut b, 20);
    string(&mut b, "RenderEffects");
    b.push(0);
    u16le(&mut b, 1);
    u16le(&mut b, 2);
    u16le(&mut b, 2);
    u16le(&mut b, 3);
    datagram(&mut v, &b);
    for id in [2u16, 3] {
        let mut o = Vec::new();
        u16le(&mut o, 30 + id);
        string(&mut o, "DepthWriteAttrib");
        o.push(0);
        u16le(&mut o, id);
        o.push(0);
        datagram(&mut v, &o);
    }
    let asset = BinaryAsset::load(v).unwrap();
    assert_eq!(asset.nodes.len(), 3);
    assert_eq!(asset.objects_left, ObjectsLeft::ObjectCount { num_extra_objects: 0 });
}

#[test]
fn geom_primitive_stores_new_arrays() {
    let mut v = file(45);
    let mut f = vec![1u8];
    f.extend_from_slice(&0i32.to_le_bytes());
    f.extend_from_slice(&3i32.to_le_bytes());
    f.push(1);
    f.push(3);
    u16le(&mut f, 7);
    u16le(&mut f, 1);
    u32le(&mut f, 2);
    u32le(&mut f, 10);
    u32le(&mut f, 20);
    datagram(&mut v, &object(Some(0), 40, "GeomTristrips", &f));
    datagram(&mut v, &pop());
    let asset = BinaryAsset::load(v).unwrap();
    assert_eq!(asset.arrays, vec![vec![10, 20]]);
    match asset.nodes.get(0) {
        Some(StoredNode::GeomPrimitive(p)) => {
            assert_eq!(p.num_vertices, 3);
            assert_eq!(p.index_type, NumericType::U16);
            assert_eq!(p.usage_hint, UsageHint::Static);
            assert_eq!(p.vertices_ref, Some(6));
            assert_eq!(p.ends_ref, Some(0));
        },
        _ => panic!("expected a GeomPrimitive"),
    }
}

#[test]
fn null_array_with_a_size_is_refused() {
    let mut v = file(45);
    let mut f = vec![0u8];
    f.extend_from_slice(&0i32.to_le_bytes());
    f.extend_from_slice(&0i32.to_le_bytes());
    f.push(0);
    f.push(0);
    u16le(&mut f, 0);
    u16le(&mut f, 0);
    u32le(&mut f, 5);
    datagram(&mut v, &object(Some(0), 40, "GeomTriangles", &f));
    datagram(&mut v, &pop());
    assert_eq!(BinaryAsset::load(v).err(), Some(Error::InvalidArray));
}

#[test]
fn vertex_columns_are_aligned() {
    let mut v = file(45);
    let mut f = Vec::new();
    u16le(&mut f, 12);
    u16le(&mut f, 12);
    f.push(0);
    u16le(&mut f, 0);
    u16le(&mut f, 1);
    // name pointer, 3 components, F32 (5), Point (1), start 5, alignment 0
    u16le(&mut f, 2);
    f.push(3);
    f.push(5);
    f.push(1);
    u16le(&mut f, 5);
    f.push(0);
    datagram(&mut v, &object(Some(0), 41, "GeomVertexArrayFormat", &f));
    datagram(&mut v, &pop());
    let asset = BinaryAsset::load(v).unwrap();
    match asset.nodes.get(0) {
        Some(StoredNode::GeomVertexArrayFormat(fmt)) => {
            let c = fmt.columns[0];
            assert_eq!(c.name_ref, 1);
            assert_eq!(c.component_bytes, 4);
            assert_eq!(c.column_alignment, 4);
            assert_eq!(c.start, 8);
            assert_eq!(c.num_elements, 1);
            assert_eq!(c.element_stride, 12);
            assert_eq!(c.total_bytes, 12);
            assert_eq!(c.num_values, 3);
        },
        _ => panic!("expected a GeomVertexArrayFormat"),
    }
}

#[test]
fn doubles_are_read_where_the_header_says_so() {
    let mut v = b"pbj\0\n\r".to_vec();
    let mut h = Vec::new();
    u16le(&mut h, 6);
    u16le(&mut h, 45);
    h.push(1);
    h.push(1);
    datagram(&mut v, &h);
    let mut f = Vec::new();
    string(&mut f, "anim");
    u16le(&mut f, 1);
    u16le(&mut f, 0);
    f.extend_from_slice(&24.0f64.to_le_bytes());
    u16le(&mut f, 10);
    datagram(&mut v, &object(Some(0), 50, "AnimBundle", &f));
    datagram(&mut v, &pop());
    let asset = BinaryAsset::load(v).unwrap();
    match asset.nodes.get(0) {
        Some(StoredNode::AnimBundle(b)) => {
            assert_eq!(b.fps, FloatBits::Double(24.0f64.to_bits()));
            assert_eq!(b.num_frames, 10);
            assert_eq!(b.inner.name, "anim");
        },
        _ => panic!("expected an AnimBundle"),
    }
}

#[test]
fn second_reader_always_stops_at_the_end() {
    assert!(matches!(BinaryAsset2::load(vec![1, 2, 3, 4, 5]), Err(Error2::EndOfFile)));
    assert!(matches!(BinaryAsset2::load(vec![]), Err(Error2::EndOfFile)));
}

#[test]
fn object_ids_widen_after_0xffff() {
    let mut v = file(45);
    let mut f = Vec::new();
    u16le(&mut f, 2);
    u16le(&mut f, 0xFFFF);
    u32le(&mut f, 7);
    datagram(&mut v, &object(Some(0), 20, "RenderEffects", &f));
    datagram(&mut v, &pop());
    let asset = BinaryAsset::load(v).unwrap();
    assert!(asset.long_object_id);
    match asset.nodes.get(0) {
        Some(StoredNode::RenderEffects(e)) => assert_eq!(e.effect_refs, vec![0xFFFE, 6]),
        _ => panic!("expected RenderEffects"),
    }
}

#[test]
fn panda_node_connections_list_state_then_children() {
    let mut v = file(45);
    let fields = panda_node_fields(45, [2, 3, 4], &[(6, 0), (8, 1)]);
    datagram(&mut v, &object(Some(0), 9, "PandaNode", &fields));
    datagram(&mut v, &pop());
    let asset = BinaryAsset::load(v).unwrap();
    let node = asset.nodes.get(0).unwrap();
    assert_eq!(panda3d::nodes::graph::connections(node), vec![1, 2, 3, 5, 7]);
}

/// A GeomTristrips record with no vertices pointer and the ends array `pta`, then `tail`.
fn tristrips(pta: u16, tail: &[u32]) -> Vec<u8> {
    let mut f = vec![0u8];
    f.extend_from_slice(&0i32.to_le_bytes());
    f.extend_from_slice(&3i32.to_le_bytes());
    f.push(1);
    f.push(3);
    u16le(&mut f, 0);
    u16le(&mut f, pta);
    for x in tail {
        u32le(&mut f, *x);
    }
    f
}

#[test]
fn a_seen_ends_array_is_only_referenced() {
    let mut v = file(45);
    datagram(&mut v, &object(Some(0), 40, "GeomTristrips", &tristrips(1, &[1, 4])));
    // The type is known by now, so the second object gives only its handle and ID.
    let mut second = vec![2u8];
    u16le(&mut second, 40);
    u16le(&mut second, 2);
    second.extend_from_slice(&tristrips(1, &[]));
    datagram(&mut v, &second);
    datagram(&mut v, &pop());
    let asset = BinaryAsset::load(v).unwrap();
    assert_eq!(asset.arrays, vec![vec![4]]);
    assert_eq!(asset.nodes.len(), 2);
    match asset.nodes.get(1) {
        Some(StoredNode::GeomPrimitive(p)) => {
            assert_eq!(p.first_vertex, 0);
            assert_eq!(p.num_vertices, 3);
            assert_eq!(p.vertices_ref, None);
            assert_eq!(p.ends_ref, Some(0));
        },
        _ => panic!("expected a GeomPrimitive"),
    }
}
