use panda3d::bam::{BinaryAsset, Header};
use panda3d::bytes::Endian;
use panda3d::common::Version;
use panda3d::datagram::FloatBits;
use panda3d::nodes::anim::{
    AnimBundle, AnimChannelMatrix, AnimChannelMatrixXfmTable, AnimGroup, CharacterJoint, MovingPartBase,
    MovingPartMatrix, PartBundle, PartGroup,
};
use panda3d::nodes::attribs::{
    ColorAttrib, CullFaceAttrib, DecalEffect, DepthWriteAttrib, RenderEffects, RenderState,
};
use panda3d::nodes::enums::{BlendType, BoundsType, ColorType, CullMode, DepthMode, PreserveTransform};
use panda3d::nodes::panda_node::{
    AnimBundleNode, Character, GeomNode, ModelNode, PandaNode, PartBundleNode,
};
use panda3d::nodes::storage::StoredNode;
use panda3d::scene::{Effects, NodeType, Panda3DError};
use panda3d::scene_graph::{
    anim_step, expand_channel, joint_step, material_settings, morph_animated, node_step, scene_root, AnimStep,
    BaseColor, FaceCulling, JointStep, NodeStep,
};
use panda3d::scene_walk::{describe, SceneItem};
use panda3d::tables::TagMap;

fn empty_asset() -> BinaryAsset {
    BinaryAsset::new(Header { version: Version { major: 6, minor: 45 }, endian: Endian::Little, use_double: false })
}

fn panda(name: &str, state_ref: u32, effects_ref: u32, children: &[u32]) -> PandaNode {
    PandaNode {
        name: name.to_string(),
        state_ref,
        transform_ref: 0,
        effects_ref,
        draw_control_mask: 0,
        draw_show_mask: 0xFFFF_FFFF,
        into_collide_mask: 0,
        bounds_type: BoundsType::Default,
        tag_data: TagMap::new(),
        parent_refs: Vec::new(),
        child_refs: children.iter().map(|c| (*c, 0)).collect(),
        stashed_refs: Vec::new(),
    }
}

fn single(x: f32) -> FloatBits {
    FloatBits::Single(x.to_bits())
}

fn group(name: &str, children: &[u32]) -> AnimGroup {
    AnimGroup { name: name.to_string(), root_ref: 0, child_refs: children.to_vec() }
}

fn part_group(name: &str, children: &[u32]) -> PartGroup {
    PartGroup { name: name.to_string(), child_refs: children.to_vec() }
}

/// 0 ModelNode root, 1 PandaNode, 2 RenderState, 3 RenderEffects, 4 GeomNode, 5 ColorAttrib,
/// 6 CullFaceAttrib, 7 DepthWriteAttrib, 8 DecalEffect, 9 Character, 10 AnimBundleNode.
fn node_tree() -> BinaryAsset {
    let mut asset = empty_asset();
    let nodes = vec![
        StoredNode::ModelNode(ModelNode {
            inner: panda("root", 2, 3, &[1]),
            transform: PreserveTransform::NoPreserve,
            attributes: 0,
        }),
        StoredNode::PandaNode(panda("body", 2, 3, &[4, 9])),
        StoredNode::RenderState(RenderState { attrib_refs: vec![(5, 0), (6, 0), (7, 0), (42, 0)] }),
        StoredNode::RenderEffects(RenderEffects { effect_refs: vec![8] }),
        StoredNode::GeomNode(GeomNode { inner: panda("mesh", 2, 3, &[]), geom_refs: vec![(11, 2), (12, 2)] }),
        StoredNode::ColorAttrib(ColorAttrib {
            color_type: ColorType::Flat,
            color: vec![single(1.0), single(0.5), single(0.25), single(1.0)],
        }),
        StoredNode::CullFaceAttrib(CullFaceAttrib { mode: CullMode::CounterClockwise, reverse: false }),
        StoredNode::DepthWriteAttrib(DepthWriteAttrib { mode: DepthMode::Off }),
        StoredNode::DecalEffect(DecalEffect {}),
        StoredNode::Character(Character {
            inner: PartBundleNode { inner: panda("toon", 2, 3, &[4]), bundle_refs: vec![20] },
            temp_part_refs: Vec::new(),
        }),
        StoredNode::AnimBundleNode(AnimBundleNode { inner: panda("walk", 2, 3, &[]), anim_bundle_ref: 30 }),
    ];
    for n in nodes {
        asset.nodes.push(n);
    }
    asset
}

#[test]
fn the_walk_starts_at_the_first_child_of_the_root() {
    let asset = node_tree();
    assert_eq!(scene_root(&asset), Ok(1));
    let empty = empty_asset();
    assert_eq!(scene_root(&empty), Err(Panda3DError::WrongNode { node_index: 0, node_type: NodeType::ModelNode }));
}

#[test]
fn node_steps_follow_the_node_type() {
    let asset = node_tree();
    let decal = Effects { is_billboard: false, is_decal: true };
    match node_step(&asset, None, 1).unwrap() {
        NodeStep::Spawn { effects, geoms, children } => {
            assert_eq!(effects, decal);
            assert!(geoms.is_empty());
            assert_eq!(children, vec![4, 9]);
        },
        _ => panic!("a PandaNode spawns an entity"),
    }
    let parent = Effects { is_billboard: true, is_decal: false };
    match node_step(&asset, Some(&parent), 4).unwrap() {
        NodeStep::Spawn { effects, geoms, children } => {
            assert_eq!(effects, Effects { is_billboard: true, is_decal: true });
            assert_eq!(geoms, vec![(11, 2), (12, 2)]);
            assert!(children.is_empty());
        },
        _ => panic!("a GeomNode spawns an entity"),
    }
    match node_step(&asset, None, 9).unwrap() {
        NodeStep::Character { effects, bundle, children } => {
            assert_eq!(effects, decal);
            assert_eq!(bundle, 20);
            assert_eq!(children, vec![4]);
        },
        _ => panic!("a Character builds a skeleton"),
    }
    assert!(matches!(node_step(&asset, None, 10).unwrap(), NodeStep::Animation { bundle: 30 }));
    assert!(matches!(node_step(&asset, None, 5).unwrap(), NodeStep::Unexpected));
    assert!(matches!(node_step(&asset, None, 99).unwrap(), NodeStep::Missing));
}

#[test]
fn a_node_needs_a_render_state_and_render_effects() {
    let mut asset = node_tree();
    asset.nodes.push(StoredNode::PandaNode(panda("no state", 5, 3, &[])));
    asset.nodes.push(StoredNode::PandaNode(panda("no effects", 2, 2, &[])));
    assert_eq!(
        node_step(&asset, None, 11).err(),
        Some(Panda3DError::WrongNode { node_index: 5, node_type: NodeType::RenderState })
    );
    assert_eq!(
        node_step(&asset, None, 12).err(),
        Some(Panda3DError::WrongNode { node_index: 2, node_type: NodeType::RenderEffects })
    );
}

#[test]
fn render_state_attributes_set_the_material() {
    let asset = node_tree();
    let m = material_settings(&asset, 2).unwrap();
    match m.base_color {
        BaseColor::Flat(c) => assert_eq!(c, vec![single(1.0), single(0.5), single(0.25), single(1.0)]),
        BaseColor::White => panic!("a flat color sets the base color"),
    }
    assert_eq!(m.culling, Some(FaceCulling::Front));
    assert!(!m.depth_write_enabled);
    assert!(m.unlit && !m.fog_enabled);
    assert_eq!(
        material_settings(&asset, 3).err(),
        Some(Panda3DError::WrongNode { node_index: 3, node_type: NodeType::RenderState })
    );
}

#[test]
fn later_attributes_override_earlier_ones() {
    let mut asset = empty_asset();
    asset.nodes.push(StoredNode::RenderState(RenderState { attrib_refs: vec![(1, 0), (2, 0), (3, 0)] }));
    asset.nodes.push(StoredNode::ColorAttrib(ColorAttrib { color_type: ColorType::Flat, color: vec![single(0.0); 4] }));
    asset.nodes.push(StoredNode::ColorAttrib(ColorAttrib { color_type: ColorType::Vertex, color: vec![single(0.0); 4] }));
    asset.nodes.push(StoredNode::CullFaceAttrib(CullFaceAttrib { mode: CullMode::Unchanged, reverse: false }));
    let m = material_settings(&asset, 0).unwrap();
    assert!(matches!(m.base_color, BaseColor::White));
    assert_eq!(m.culling, Some(FaceCulling::Back));
    assert!(m.depth_write_enabled);

    let mut plain = empty_asset();
    plain.nodes.push(StoredNode::RenderState(RenderState { attrib_refs: Vec::new() }));
    let m = material_settings(&plain, 0).unwrap();
    assert!(matches!(m.base_color, BaseColor::White));
    assert_eq!(m.culling, None);
    assert!(m.depth_write_enabled);
    assert!(m.unlit && !m.fog_enabled);
}

fn joint(name: &str, net_nodes: &[u32], children: &[u32]) -> CharacterJoint {
    CharacterJoint {
        inner: MovingPartMatrix {
            inner: MovingPartBase { inner: part_group(name, children), forced_channel_ref: None },
            value: vec![single(0.0); 16],
            default_value: vec![single(0.0); 16],
        },
        character_ref: None,
        net_node_refs: net_nodes.to_vec(),
        local_node_refs: Vec::new(),
        initial_net_transform_inverse: vec![single(0.0); 16],
    }
}

/// 0 PartBundle, 1 PartGroup "<skeleton>", 2 joint, 3 joint with a bad net node, 4 ModelNode.
fn skeleton() -> BinaryAsset {
    let mut asset = empty_asset();
    asset.nodes.push(StoredNode::PartBundle(PartBundle {
        inner: part_group("toon", &[1]),
        anim_preload_ref: None,
        blend_type: BlendType::NormalizedLinear,
        anim_blend_flag: false,
        frame_blend_flag: false,
        root_transform: vec![single(0.0); 16],
    }));
    asset.nodes.push(StoredNode::PartGroup(part_group("<skeleton>", &[2])));
    asset.nodes.push(StoredNode::CharacterJoint(joint("hips", &[4], &[3])));
    asset.nodes.push(StoredNode::CharacterJoint(joint("neck", &[4, 1], &[])));
    asset.nodes.push(StoredNode::ModelNode(ModelNode {
        inner: panda("head", 0, 0, &[]),
        transform: PreserveTransform::Net,
        attributes: 0,
    }));
    asset
}

#[test]
fn skeleton_steps() {
    let asset = skeleton();
    match joint_step(&asset, 0).unwrap() {
        JointStep::Skeleton { part_group, children } => {
            assert_eq!(part_group, 1);
            assert_eq!(children, vec![2]);
        },
        _ => panic!("a PartBundle roots a skeleton"),
    }
    match joint_step(&asset, 2).unwrap() {
        JointStep::Joint { net_nodes, children } => {
            assert_eq!(net_nodes, vec![4]);
            assert_eq!(children, vec![3]);
        },
        _ => panic!("a CharacterJoint is a joint"),
    }
    assert_eq!(
        joint_step(&asset, 3).err(),
        Some(Panda3DError::WrongNode { node_index: 1, node_type: NodeType::ModelNode })
    );
    assert!(matches!(joint_step(&asset, 4).unwrap(), JointStep::Unexpected));
    assert!(matches!(joint_step(&asset, 5).unwrap(), JointStep::Missing));
}

#[test]
fn a_part_bundle_needs_a_part_group() {
    let mut asset = skeleton();
    asset.nodes.push(StoredNode::PartBundle(PartBundle {
        inner: part_group("bad", &[2]),
        anim_preload_ref: None,
        blend_type: BlendType::NormalizedLinear,
        anim_blend_flag: false,
        frame_blend_flag: false,
        root_transform: Vec::new(),
    }));
    assert_eq!(
        joint_step(&asset, 5).err(),
        Some(Panda3DError::WrongNode { node_index: 2, node_type: NodeType::PartGroup })
    );
}

fn xfm_table(tables: Vec<Vec<FloatBits>>, children: &[u32]) -> AnimChannelMatrixXfmTable {
    AnimChannelMatrixXfmTable {
        inner: AnimChannelMatrix { inner: group("hips", children), last_frame: 0 },
        tables,
    }
}

/// 0 AnimBundle of 3 frames, 1 AnimGroup "<skeleton>", 2 AnimGroup "morph", 3 transform table.
fn animation() -> BinaryAsset {
    let mut asset = empty_asset();
    asset.nodes.push(StoredNode::AnimBundle(AnimBundle {
        inner: group("walk", &[1, 2]),
        fps: single(24.0),
        num_frames: 3,
    }));
    asset.nodes.push(StoredNode::AnimGroup(group("<skeleton>", &[3])));
    asset.nodes.push(StoredNode::AnimGroup(group("morph", &[])));
    let mut tables = vec![Vec::new(); 12];
    tables[1] = vec![single(2.0)];
    tables[2] = vec![single(1.0), single(2.0), single(3.0), single(4.0)];
    tables[4] = vec![single(0.1)];
    tables[9] = vec![single(5.0), single(6.0), single(7.0)];
    asset.nodes.push(StoredNode::AnimChannelMatrixXfmTable(xfm_table(tables, &[7])));
    asset
}

#[test]
fn animation_steps() {
    let asset = animation();
    match anim_step(&asset, None, 0).unwrap() {
        AnimStep::Clip { fps, num_frames, channels, morph } => {
            assert_eq!(fps, single(24.0));
            assert_eq!(num_frames, 3);
            assert_eq!(channels, vec![3]);
            assert_eq!(morph, 2);
        },
        _ => panic!("an AnimBundle with two groups makes a clip"),
    }
    assert_eq!(morph_animated(&asset, 2), Ok(false));
    assert_eq!(morph_animated(&asset, 3), Err(Panda3DError::WrongNode { node_index: 3, node_type: NodeType::AnimGroup }));
    match anim_step(&asset, Some(3), 3).unwrap() {
        AnimStep::Channel { scale, hpr, translation, shear, children } => {
            let one = single(1.0);
            let zero = single(0.0);
            assert_eq!(
                scale,
                Some(vec![(one, single(2.0), single(1.0)), (one, single(2.0), single(2.0)), (one, single(2.0), single(3.0))])
            );
            assert_eq!(hpr, Some(vec![(zero, zero, zero); 3]));
            assert_eq!(
                translation,
                Some(vec![(single(5.0), zero, zero), (single(6.0), zero, zero), (single(7.0), zero, zero)])
            );
            assert!(shear);
            assert_eq!(children, vec![7]);
        },
        _ => panic!("a transform table inside an animation is a channel"),
    }
    assert!(matches!(anim_step(&asset, None, 3).unwrap(), AnimStep::Unexpected));
    assert!(matches!(anim_step(&asset, None, 1).unwrap(), AnimStep::Unexpected));
    assert!(matches!(anim_step(&asset, None, 9).unwrap(), AnimStep::Missing));
}

#[test]
fn an_animation_without_frames_has_no_curves() {
    let asset = animation();
    match anim_step(&asset, Some(0), 3).unwrap() {
        AnimStep::Channel { scale, hpr, translation, .. } => {
            assert_eq!(scale, Some(Vec::new()));
            assert_eq!(hpr, None);
            assert_eq!(translation, Some(Vec::new()));
        },
        _ => panic!("a transform table inside an animation is a channel"),
    }
}

#[test]
fn an_anim_bundle_needs_two_groups_and_a_skeleton() {
    let mut asset = animation();
    asset.nodes.push(StoredNode::AnimBundle(AnimBundle { inner: group("one", &[1]), fps: single(24.0), num_frames: 3 }));
    asset.nodes.push(StoredNode::AnimBundle(AnimBundle { inner: group("bad", &[3, 2]), fps: single(24.0), num_frames: 3 }));
    assert!(matches!(anim_step(&asset, None, 4).unwrap(), AnimStep::Malformed));
    assert_eq!(
        anim_step(&asset, None, 5).err(),
        Some(Panda3DError::WrongNode { node_index: 3, node_type: NodeType::AnimGroup })
    );
}

#[test]
fn channel_tables_expand_to_every_frame() {
    let default = single(1.0);
    assert_eq!(expand_channel(&Vec::new(), default, 3), vec![default; 3]);
    assert_eq!(expand_channel(&vec![single(2.0)], default, 2), vec![single(2.0); 2]);
    let long = vec![single(1.0), single(2.0), single(3.0)];
    assert_eq!(expand_channel(&long, default, 2), long);
    assert_eq!(expand_channel(&Vec::new(), default, 0), Vec::new());
}

#[test]
fn effects_pass_down_the_tree() {
    let asset = node_tree();
    for parent in [
        Effects { is_billboard: true, is_decal: false },
        Effects { is_billboard: false, is_decal: true },
        Effects { is_billboard: true, is_decal: true },
    ] {
        match node_step(&asset, Some(&parent), 1).unwrap() {
            NodeStep::Spawn { effects, .. } => {
                assert!(!parent.is_billboard || effects.is_billboard);
                assert!(!parent.is_decal || effects.is_decal);
            },
            _ => panic!("a PandaNode spawns an entity"),
        }
    }
}

/// 0 root, 1 PandaNode, 2 RenderState, 3 RenderEffects, 4 AnimBundleNode, 5 DecalEffect,
/// 6 AnimBundle of 2 frames, 7 skeleton group, 8 morph group, 9 transform table.
fn animated_tree() -> BinaryAsset {
    let mut asset = empty_asset();
    let nodes = vec![
        StoredNode::ModelNode(ModelNode { inner: panda("root", 2, 3, &[1]), transform: PreserveTransform::NoPreserve, attributes: 0 }),
        StoredNode::PandaNode(panda("body", 2, 3, &[4])),
        StoredNode::RenderState(RenderState { attrib_refs: Vec::new() }),
        StoredNode::RenderEffects(RenderEffects { effect_refs: vec![5] }),
        StoredNode::AnimBundleNode(AnimBundleNode { inner: panda("walk", 2, 3, &[]), anim_bundle_ref: 6 }),
        StoredNode::DecalEffect(DecalEffect {}),
        StoredNode::AnimBundle(AnimBundle { inner: group("walk", &[7, 8]), fps: single(24.0), num_frames: 2 }),
        StoredNode::AnimGroup(group("<skeleton>", &[9])),
        StoredNode::AnimGroup(group("morph", &[])),
        StoredNode::AnimChannelMatrixXfmTable(xfm_table(vec![Vec::new(); 12], &[])),
    ];
    for n in nodes {
        asset.nodes.push(n);
    }
    asset
}

#[test]
fn the_walk_lists_the_scene_in_order() {
    let asset = animated_tree();
    let items = describe(&asset, 100).unwrap().unwrap();
    assert_eq!(items.len(), 3);
    match &items[0] {
        SceneItem::Entity { node, parent, effects } => {
            assert_eq!(*node, 1);
            assert_eq!(*parent, None);
            assert_eq!(*effects, Effects { is_billboard: false, is_decal: true });
        },
        _ => panic!("the first item is the PandaNode's entity"),
    }
    assert!(matches!(items[1], SceneItem::Clip { bundle: 6, num_frames: 2 }));
    assert!(matches!(items[2], SceneItem::Channel { node: 9 }));
}

#[test]
fn the_walk_stops_at_its_depth_limit() {
    let asset = animated_tree();
    assert_eq!(describe(&asset, 1).unwrap().err(), Some(Panda3DError::TooDeep { node_index: 4 }));
    assert_eq!(describe(&asset, 0).unwrap().err(), Some(Panda3DError::TooDeep { node_index: 1 }));
}

#[test]
fn the_walk_reports_where_no_scene_can_be_built() {
    let mut asset = animated_tree();
    // A Character without a joint bundle under the root.
    asset.nodes.push(StoredNode::Character(Character {
        inner: PartBundleNode { inner: panda("toon", 2, 3, &[]), bundle_refs: Vec::new() },
        temp_part_refs: Vec::new(),
    }));
    if let StoredNode::ModelNode(root) = &mut asset.nodes.nodes[0] {
        root.inner.child_refs = vec![(10, 0)];
    }
    assert!(describe(&asset, 100).is_none());
    let empty = empty_asset();
    assert_eq!(
        describe(&empty, 100).unwrap().err(),
        Some(Panda3DError::WrongNode { node_index: 0, node_type: NodeType::ModelNode })
    );
}
