use panda3d::bam::BinaryAsset;
use panda3d::nodes::enums::{FilterType, WrapMode};
use panda3d::scene::{
    convert_image_filter, convert_wrap_mode, geom_mesh, merge_alpha, sampler_modes, AddressMode, Effects, FilterMode,
    Indices, NodeType, Panda3DError, SamplerModes, Topology,
};

fn u16le(v: &mut Vec<u8>, x: u16) {
    v.extend_from_slice(&x.to_le_bytes());
}

fn u32le(v: &mut Vec<u8>, x: u32) {
    v.extend_from_slice(&x.to_le_bytes());
}

fn string(v: &mut Vec<u8>, s: &str) {
    u16le(v, s.len() as u16);
    v.extend_from_slice(s.as_bytes());
}

/// A version 6.45 file holding the objects in order, object IDs from 1.
fn asset(objects: &[(&str, Vec<u8>)]) -> Vec<u8> {
    let mut v = b"pbj\0\n\r".to_vec();
    u32le(&mut v, 6);
    u16le(&mut v, 6);
    u16le(&mut v, 45);
    v.push(1);
    v.push(0);
    let mut names: Vec<&str> = Vec::new();
    for (i, (name, fields)) in objects.iter().enumerate() {
        let mut b = vec![if i == 0 { 0u8 } else { 2u8 }];
        match names.iter().position(|n| n == name) {
            Some(p) => u16le(&mut b, 100 + p as u16),
            None => {
                u16le(&mut b, 100 + names.len() as u16);
                string(&mut b, name);
                b.push(0);
                names.push(name);
            },
        }
        u16le(&mut b, i as u16 + 1);
        b.extend_from_slice(fields);
        u32le(&mut v, b.len() as u32);
        v.extend_from_slice(&b);
    }
    u32le(&mut v, 1);
    v.push(1);
    v
}

fn geom(rendering: u16, primitive: u16) -> Vec<u8> {
    let mut f = Vec::new();
    u16le(&mut f, 2);
    u16le(&mut f, 1);
    u16le(&mut f, primitive);
    f.push(1);
    f.push(0);
    u16le(&mut f, rendering);
    f.push(0);
    f
}

fn vertex_data() -> Vec<u8> {
    let mut f = Vec::new();
    string(&mut f, "mesh");
    u16le(&mut f, 4);
    f.push(3);
    u16le(&mut f, 1);
    u16le(&mut f, 5);
    u16le(&mut f, 0);
    u16le(&mut f, 0);
    u16le(&mut f, 0);
    f
}

fn primitive(first: i32, count: i32, vertices: u16) -> Vec<u8> {
    let mut f = vec![0u8];
    f.extend_from_slice(&first.to_le_bytes());
    f.extend_from_slice(&count.to_le_bytes());
    f.push(1);
    f.push(3);
    u16le(&mut f, vertices);
    u16le(&mut f, 0);
    u32le(&mut f, 0);
    f
}

fn vertex_format() -> Vec<u8> {
    let mut f = vec![0u8];
    u16le(&mut f, 0);
    f.push(0);
    u16le(&mut f, 1);
    u16le(&mut f, 6);
    f
}

fn array_data(buffer: &[u8]) -> Vec<u8> {
    let mut f = Vec::new();
    u16le(&mut f, 6);
    f.push(3);
    u32le(&mut f, buffer.len() as u32);
    f.extend_from_slice(buffer);
    f
}

fn column(f: &mut Vec<u8>, name: u16, components: u8, numeric: u8, contents: u8, start: u16) {
    u16le(f, name);
    f.push(components);
    f.push(numeric);
    f.push(contents);
    u16le(f, start);
    f.push(4);
}

fn array_format(stride: u16) -> Vec<u8> {
    let mut f = Vec::new();
    u16le(&mut f, stride);
    u16le(&mut f, stride);
    f.push(0);
    u16le(&mut f, 0);
    u16le(&mut f, 2);
    column(&mut f, 7, 3, 5, 1, 0);
    column(&mut f, 8, 2, 5, 4, 12);
    f
}

fn vertices() -> Vec<u8> {
    let mut b = Vec::new();
    for v in [[1.0f32, 2.0, 3.0, 0.25, 0.75], [4.0, 5.0, 6.0, 0.5, 1.0]] {
        for x in v {
            b.extend_from_slice(&x.to_le_bytes());
        }
    }
    b
}

fn scene(rendering: u16, first: i32, count: i32) -> Vec<u8> {
    asset(&[
        ("Geom", geom(rendering, 3)),
        ("GeomVertexData", vertex_data()),
        ("GeomTristrips", primitive(first, count, 0)),
        ("GeomVertexFormat", vertex_format()),
        ("GeomVertexArrayData", array_data(&vertices())),
        ("GeomVertexArrayFormat", array_format(20)),
        ("InternalName", {
            let mut f = Vec::new();
            string(&mut f, "vertex");
            f
        }),
        ("InternalName", {
            let mut f = Vec::new();
            string(&mut f, "texcoord");
            f
        }),
    ])
}

#[test]
fn mesh_of_a_triangle_strip() {
    let asset = BinaryAsset::load(scene(0x400, 5, 3)).unwrap();
    assert_eq!(asset.nodes.len(), 8);
    let mesh = geom_mesh(&asset, 0).unwrap();
    assert_eq!(mesh.topology, Topology::TriangleStrip);
    match mesh.indices {
        Indices::U32(v) => assert_eq!(v, vec![5, 6, 7]),
        Indices::U16(_) => panic!("expected generated indices"),
    }
    let positions = mesh.positions.unwrap();
    assert_eq!(positions.len(), 2);
    assert_eq!(positions[0], (1.0f32.to_bits(), 2.0f32.to_bits(), 3.0f32.to_bits()));
    assert_eq!(positions[1], (4.0f32.to_bits(), 5.0f32.to_bits(), 6.0f32.to_bits()));
    let texcoords = mesh.texcoords.unwrap();
    assert_eq!(texcoords, vec![(0.25f32.to_bits(), 0.75f32.to_bits()), (0.5f32.to_bits(), 1.0f32.to_bits())]);
}

#[test]
fn triangle_lists_without_strip_flag() {
    let asset = BinaryAsset::load(scene(0, 0, 2)).unwrap();
    let mesh = geom_mesh(&asset, 0).unwrap();
    assert_eq!(mesh.topology, Topology::TriangleList);
}

#[test]
fn wrong_node_types_are_reported() {
    let asset = BinaryAsset::load(scene(0, 0, 2)).unwrap();
    assert_eq!(geom_mesh(&asset, 1).err(), Some(Panda3DError::WrongNode { node_index: 1, node_type: NodeType::Geom }));
    assert_eq!(geom_mesh(&asset, 99).err(), Some(Panda3DError::WrongNode { node_index: 99, node_type: NodeType::Geom }));
}

#[test]
fn vertex_count_from_the_ends_array_needs_one_entry() {
    let asset = BinaryAsset::load(scene(0, 0, -1)).unwrap();
    assert_eq!(geom_mesh(&asset, 0).err(), Some(Panda3DError::UnexpectedData { node_index: 2 }));
}

#[test]
fn render_effects_mark_billboards_and_decals() {
    // RenderEffects (object 1) lists a DecalEffect (object 2) and a missing object 9.
    let mut effects = Vec::new();
    u16le(&mut effects, 2);
    u16le(&mut effects, 2);
    u16le(&mut effects, 10);
    let bytes = asset(&[("RenderEffects", effects), ("DecalEffect", Vec::new())]);
    let asset = BinaryAsset::load(bytes).unwrap();
    let e = Effects::new(&asset, None, 0).unwrap();
    assert!(e.is_decal);
    assert!(!e.is_billboard);
    let parent = Effects { is_billboard: true, is_decal: false };
    let e = Effects::new(&asset, Some(&parent), 0).unwrap();
    assert!(e.is_billboard && e.is_decal);
    assert_eq!(
        Effects::new(&asset, None, 1).err(),
        Some(Panda3DError::WrongNode { node_index: 1, node_type: NodeType::RenderEffects })
    );
}

#[test]
fn texture_modes_convert() {
    assert_eq!(convert_wrap_mode(WrapMode::Clamp), Ok(AddressMode::ClampToEdge));
    assert_eq!(convert_wrap_mode(WrapMode::Mirror), Ok(AddressMode::MirrorRepeat));
    assert_eq!(
        convert_wrap_mode(WrapMode::MirrorOnce),
        Err(Panda3DError::UnsupportedWrap { wrap_mode: WrapMode::MirrorOnce })
    );
    assert_eq!(convert_image_filter(FilterType::NearestMipmapLinear, false), FilterMode::Nearest);
    assert_eq!(convert_image_filter(FilterType::NearestMipmapLinear, true), FilterMode::Linear);
    assert_eq!(convert_image_filter(FilterType::LinearMipmapNearest, true), FilterMode::Nearest);
    assert_eq!(convert_image_filter(FilterType::Shadow, false), FilterMode::Linear);
}

#[test]
fn sampler_modes_of_a_texture() {
    let modes = sampler_modes(
        [WrapMode::Repeat, WrapMode::Clamp, WrapMode::BorderColor],
        [FilterType::LinearMipmapNearest, FilterType::Nearest],
    );
    assert_eq!(
        modes,
        Ok(SamplerModes {
            address_u: AddressMode::Repeat,
            address_v: AddressMode::ClampToEdge,
            address_w: AddressMode::ClampToBorder,
            mag_filter: FilterMode::Nearest,
            min_filter: FilterMode::Linear,
            mipmap_filter: FilterMode::Nearest,
        })
    );
    assert_eq!(
        sampler_modes([WrapMode::Repeat, WrapMode::MirrorOnce, WrapMode::Invalid], [FilterType::Linear; 2]),
        Err(Panda3DError::UnsupportedWrap { wrap_mode: WrapMode::MirrorOnce })
    );
}

#[test]
fn alpha_images_replace_the_alpha_bytes() {
    let mut rgba = vec![1, 2, 3, 4, 5, 6, 7, 8, 9, 10, 11, 12];
    merge_alpha(&mut rgba, &[100, 200, 250], 2);
    assert_eq!(rgba, vec![1, 2, 3, 100, 5, 6, 7, 200, 9, 10, 11, 12]);
    merge_alpha(&mut rgba, &[], 0);
    assert_eq!(rgba, vec![1, 2, 3, 100, 5, 6, 7, 200, 9, 10, 11, 12]);
}
