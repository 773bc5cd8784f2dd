//! Choosing the reader of an object by its type name, and storing what it read.

use vstd::prelude::*;

use crate::bam::{outcome, AssetView, BinaryAsset, Error, PR};
use crate::datagram::{Datagram, DgView};
use crate::nodes::anim::{AnimBundle, AnimChannelMatrixXfmTable, AnimGroup, CharacterJoint, JointVertexTransform, PartBundle, PartGroup, sp_anim_bundle, sp_anim_group, sp_character_joint, sp_joint_vertex_transform, sp_part_bundle, sp_part_group, sp_xfm_table};
use crate::nodes::attribs::{BillboardEffect, CharacterJointEffect, ColorAttrib, CullBinAttrib, CullFaceAttrib, DecalEffect, DepthWriteAttrib, RenderEffects, RenderState, sp_billboard, sp_character_joint_effect, sp_color_attrib, sp_cull_bin, sp_cull_face, sp_depth_write, sp_render_effects, sp_render_state};
use crate::nodes::collision::{CollisionCapsule, CollisionPolygon, CollisionSphere, sp_collision_capsule, sp_collision_polygon, sp_collision_sphere};
use crate::nodes::geom::{Geom, GeomPrimitive, GeomVertexArrayData, GeomVertexArrayFormat, GeomVertexData, GeomVertexFormat, InternalName, sp_array_data, sp_array_format, sp_geom, sp_geom_primitive, sp_internal_name, sp_vertex_data, sp_vertex_format};
use crate::nodes::panda_node::{AnimBundleNode, Character, CollisionNode, GeomNode, LODNode, ModelNode, PandaNode, sp_anim_bundle_node, sp_character, sp_collision_node, sp_geom_node, sp_lod_node, sp_model_node, sp_panda_node};
use crate::nodes::storage::{NodeView, StoredNode};
use crate::tables::type_names;

verus! {

/// Which reader an object needs.
#[derive(Clone, Copy, Debug, PartialEq, Eq, Structural)]
pub enum NodeKind {
    AnimBundle,
    AnimBundleNode,
    AnimChannelMatrixXfmTable,
    AnimGroup,
    BillboardEffect,
    Character,
    CharacterJoint,
    CharacterJointEffect,
    CollisionCapsule,
    CollisionNode,
    CollisionPolygon,
    CollisionSphere,
    ColorAttrib,
    CullBinAttrib,
    CullFaceAttrib,
    DecalEffect,
    DepthWriteAttrib,
    Geom,
    GeomNode,
    GeomPrimitive,
    GeomVertexArrayData,
    GeomVertexArrayFormat,
    GeomVertexData,
    GeomVertexFormat,
    InternalName,
    JointVertexTransform,
    LODNode,
    ModelNode,
    PandaNode,
    PartBundle,
    PartGroup,
    RenderEffects,
    RenderState,
    /// A known type whose reader is not part of this library.
    Unsupported,
}

/// The reader that objects of the type named `name` need; `None` for a type without one.
pub open spec fn kind_of(name: Seq<char>) -> Option<NodeKind> {
    if name == "AnimBundle"@ {
        Some(NodeKind::AnimBundle)
    } else if name == "AnimBundleNode"@ {
        Some(NodeKind::AnimBundleNode)
    } else if name == "AnimChannelMatrixXfmTable"@ {
        Some(NodeKind::AnimChannelMatrixXfmTable)
    } else if name == "AnimGroup"@ {
        Some(NodeKind::AnimGroup)
    } else if name == "BillboardEffect"@ {
        Some(NodeKind::BillboardEffect)
    } else if name == "Character"@ {
        Some(NodeKind::Character)
    } else if name == "CharacterJoint"@ {
        Some(NodeKind::CharacterJoint)
    } else if name == "CharacterJointBundle"@ {
        Some(NodeKind::PartBundle)
    } else if name == "CharacterJointEffect"@ {
        Some(NodeKind::CharacterJointEffect)
    } else if name == "CollisionCapsule"@ {
        Some(NodeKind::CollisionCapsule)
    } else if name == "CollisionNode"@ {
        Some(NodeKind::CollisionNode)
    } else if name == "CollisionPolygon"@ {
        Some(NodeKind::CollisionPolygon)
    } else if name == "CollisionSphere"@ {
        Some(NodeKind::CollisionSphere)
    } else if name == "CollisionTube"@ {
        Some(NodeKind::CollisionCapsule)
    } else if name == "ColorAttrib"@ {
        Some(NodeKind::ColorAttrib)
    } else if name == "CullBinAttrib"@ {
        Some(NodeKind::CullBinAttrib)
    } else if name == "CullFaceAttrib"@ {
        Some(NodeKind::CullFaceAttrib)
    } else if name == "DecalEffect"@ {
        Some(NodeKind::DecalEffect)
    } else if name == "DepthWriteAttrib"@ {
        Some(NodeKind::DepthWriteAttrib)
    } else if name == "Geom"@ {
        Some(NodeKind::Geom)
    } else if name == "GeomNode"@ {
        Some(NodeKind::GeomNode)
    } else if name == "GeomTriangles"@ {
        Some(NodeKind::GeomPrimitive)
    } else if name == "GeomTristrips"@ {
        Some(NodeKind::GeomPrimitive)
    } else if name == "GeomVertexArrayData"@ {
        Some(NodeKind::GeomVertexArrayData)
    } else if name == "GeomVertexArrayFormat"@ {
        Some(NodeKind::GeomVertexArrayFormat)
    } else if name == "GeomVertexData"@ {
        Some(NodeKind::GeomVertexData)
    } else if name == "GeomVertexFormat"@ {
        Some(NodeKind::GeomVertexFormat)
    } else if name == "InternalName"@ {
        Some(NodeKind::InternalName)
    } else if name == "JointVertexTransform"@ {
        Some(NodeKind::JointVertexTransform)
    } else if name == "LODNode"@ {
        Some(NodeKind::LODNode)
    } else if name == "ModelNode"@ {
        Some(NodeKind::ModelNode)
    } else if name == "ModelRoot"@ {
        Some(NodeKind::ModelNode)
    } else if name == "PandaNode"@ {
        Some(NodeKind::PandaNode)
    } else if name == "PartGroup"@ {
        Some(NodeKind::PartGroup)
    } else if name == "RenderEffects"@ {
        Some(NodeKind::RenderEffects)
    } else if name == "RenderState"@ {
        Some(NodeKind::RenderState)
    } else if name == "Texture"@ {
        Some(NodeKind::Unsupported)
    } else if name == "TextureAttrib"@ {
        Some(NodeKind::Unsupported)
    } else if name == "TextureStage"@ {
        Some(NodeKind::Unsupported)
    } else if name == "TransformBlendTable"@ {
        Some(NodeKind::Unsupported)
    } else if name == "TransformState"@ {
        Some(NodeKind::Unsupported)
    } else if name == "TransparencyAttrib"@ {
        Some(NodeKind::Unsupported)
    } else if name == "UserVertexTransform"@ {
        Some(NodeKind::Unsupported)
    } else {
        None
    }
}

/// Whether `name` holds the same text as `lit`.
pub fn name_is(name: &String, lit: &str) -> (b: bool)
    ensures
        b == (name@ == lit@),
{
    let other = lit.to_owned();
    *name == other
}

/// Finds the reader for the type named `name` (see `kind_of`).
pub fn classify(name: &String) -> (r: Option<NodeKind>)
    ensures
        r == kind_of(name@),
{
    if name_is(name, "AnimBundle") {
        Some(NodeKind::AnimBundle)
    } else if name_is(name, "AnimBundleNode") {
        Some(NodeKind::AnimBundleNode)
    } else if name_is(name, "AnimChannelMatrixXfmTable") {
        Some(NodeKind::AnimChannelMatrixXfmTable)
    } else if name_is(name, "AnimGroup") {
        Some(NodeKind::AnimGroup)
    } else if name_is(name, "BillboardEffect") {
        Some(NodeKind::BillboardEffect)
    } else if name_is(name, "Character") {
        Some(NodeKind::Character)
    } else if name_is(name, "CharacterJoint") {
        Some(NodeKind::CharacterJoint)
    } else if name_is(name, "CharacterJointBundle") {
        Some(NodeKind::PartBundle)
    } else if name_is(name, "CharacterJointEffect") {
        Some(NodeKind::CharacterJointEffect)
    } else if name_is(name, "CollisionCapsule") {
        Some(NodeKind::CollisionCapsule)
    } else if name_is(name, "CollisionNode") {
        Some(NodeKind::CollisionNode)
    } else if name_is(name, "CollisionPolygon") {
        Some(NodeKind::CollisionPolygon)
    } else if name_is(name, "CollisionSphere") {
        Some(NodeKind::CollisionSphere)
    } else if name_is(name, "CollisionTube") {
        Some(NodeKind::CollisionCapsule)
    } else if name_is(name, "ColorAttrib") {
        Some(NodeKind::ColorAttrib)
    } else if name_is(name, "CullBinAttrib") {
        Some(NodeKind::CullBinAttrib)
    } else if name_is(name, "CullFaceAttrib") {
        Some(NodeKind::CullFaceAttrib)
    } else if name_is(name, "DecalEffect") {
        Some(NodeKind::DecalEffect)
    } else if name_is(name, "DepthWriteAttrib") {
        Some(NodeKind::DepthWriteAttrib)
    } else if name_is(name, "Geom") {
        Some(NodeKind::Geom)
    } else if name_is(name, "GeomNode") {
        Some(NodeKind::GeomNode)
    } else if name_is(name, "GeomTriangles") {
        Some(NodeKind::GeomPrimitive)
    } else if name_is(name, "GeomTristrips") {
        Some(NodeKind::GeomPrimitive)
    } else if name_is(name, "GeomVertexArrayData") {
        Some(NodeKind::GeomVertexArrayData)
    } else if name_is(name, "GeomVertexArrayFormat") {
        Some(NodeKind::GeomVertexArrayFormat)
    } else if name_is(name, "GeomVertexData") {
        Some(NodeKind::GeomVertexData)
    } else if name_is(name, "GeomVertexFormat") {
        Some(NodeKind::GeomVertexFormat)
    } else if name_is(name, "InternalName") {
        Some(NodeKind::InternalName)
    } else if name_is(name, "JointVertexTransform") {
        Some(NodeKind::JointVertexTransform)
    } else if name_is(name, "LODNode") {
        Some(NodeKind::LODNode)
    } else if name_is(name, "ModelNode") {
        Some(NodeKind::ModelNode)
    } else if name_is(name, "ModelRoot") {
        Some(NodeKind::ModelNode)
    } else if name_is(name, "PandaNode") {
        Some(NodeKind::PandaNode)
    } else if name_is(name, "PartGroup") {
        Some(NodeKind::PartGroup)
    } else if name_is(name, "RenderEffects") {
        Some(NodeKind::RenderEffects)
    } else if name_is(name, "RenderState") {
        Some(NodeKind::RenderState)
    } else if name_is(name, "Texture") {
        Some(NodeKind::Unsupported)
    } else if name_is(name, "TextureAttrib") {
        Some(NodeKind::Unsupported)
    } else if name_is(name, "TextureStage") {
        Some(NodeKind::Unsupported)
    } else if name_is(name, "TransformBlendTable") {
        Some(NodeKind::Unsupported)
    } else if name_is(name, "TransformState") {
        Some(NodeKind::Unsupported)
    } else if name_is(name, "TransparencyAttrib") {
        Some(NodeKind::Unsupported)
    } else if name_is(name, "UserVertexTransform") {
        Some(NodeKind::Unsupported)
    } else {
        None
    }
}

/// Reads a AnimBundle as a stored object.
#[verifier::opaque]
pub open spec fn node_anim_bundle(a: AssetView, d: DgView) -> PR<NodeView> {
    match sp_anim_bundle(a, d) {
        Err(e) => Err(e),
        Ok((n, a, d)) => Ok((NodeView::AnimBundle(n), a, d)),
    }
}

/// Reads a AnimBundleNode as a stored object.
#[verifier::opaque]
pub open spec fn node_anim_bundle_node(a: AssetView, d: DgView) -> PR<NodeView> {
    match sp_anim_bundle_node(a, d) {
        Err(e) => Err(e),
        Ok((n, a, d)) => Ok((NodeView::AnimBundleNode(n), a, d)),
    }
}

/// Reads a AnimChannelMatrixXfmTable as a stored object.
#[verifier::opaque]
pub open spec fn node_anim_channel_matrix_xfm_table(a: AssetView, d: DgView) -> PR<NodeView> {
    match sp_xfm_table(a, d) {
        Err(e) => Err(e),
        Ok((n, a, d)) => Ok((NodeView::AnimChannelMatrixXfmTable(n), a, d)),
    }
}

/// Reads a AnimGroup as a stored object.
#[verifier::opaque]
pub open spec fn node_anim_group(a: AssetView, d: DgView) -> PR<NodeView> {
    match sp_anim_group(a, d) {
        Err(e) => Err(e),
        Ok((n, a, d)) => Ok((NodeView::AnimGroup(n), a, d)),
    }
}

/// Reads a BillboardEffect as a stored object.
#[verifier::opaque]
pub open spec fn node_billboard_effect(a: AssetView, d: DgView) -> PR<NodeView> {
    match sp_billboard(a, d) {
        Err(e) => Err(e),
        Ok((n, a, d)) => Ok((NodeView::BillboardEffect(n), a, d)),
    }
}

/// Reads a Character as a stored object.
#[verifier::opaque]
pub open spec fn node_character(a: AssetView, d: DgView) -> PR<NodeView> {
    match sp_character(a, d) {
        Err(e) => Err(e),
        Ok((n, a, d)) => Ok((NodeView::Character(n), a, d)),
    }
}

/// Reads a CharacterJoint as a stored object.
#[verifier::opaque]
pub open spec fn node_character_joint(a: AssetView, d: DgView) -> PR<NodeView> {
    match sp_character_joint(a, d) {
        Err(e) => Err(e),
        Ok((n, a, d)) => Ok((NodeView::CharacterJoint(n), a, d)),
    }
}

/// Reads a CharacterJointEffect as a stored object.
#[verifier::opaque]
pub open spec fn node_character_joint_effect(a: AssetView, d: DgView) -> PR<NodeView> {
    match sp_character_joint_effect(a, d) {
        Err(e) => Err(e),
        Ok((n, a, d)) => Ok((NodeView::CharacterJointEffect(n), a, d)),
    }
}

/// Reads a CollisionCapsule as a stored object.
#[verifier::opaque]
pub open spec fn node_collision_capsule(a: AssetView, d: DgView) -> PR<NodeView> {
    match sp_collision_capsule(a, d) {
        Err(e) => Err(e),
        Ok((n, a, d)) => Ok((NodeView::CollisionCapsule(n), a, d)),
    }
}

/// Reads a CollisionNode as a stored object.
#[verifier::opaque]
pub open spec fn node_collision_node(a: AssetView, d: DgView) -> PR<NodeView> {
    match sp_collision_node(a, d) {
        Err(e) => Err(e),
        Ok((n, a, d)) => Ok((NodeView::CollisionNode(n), a, d)),
    }
}

/// Reads a CollisionPolygon as a stored object.
#[verifier::opaque]
pub open spec fn node_collision_polygon(a: AssetView, d: DgView) -> PR<NodeView> {
    match sp_collision_polygon(a, d) {
        Err(e) => Err(e),
        Ok((n, a, d)) => Ok((NodeView::CollisionPolygon(n), a, d)),
    }
}

/// Reads a CollisionSphere as a stored object.
#[verifier::opaque]
pub open spec fn node_collision_sphere(a: AssetView, d: DgView) -> PR<NodeView> {
    match sp_collision_sphere(a, d) {
        Err(e) => Err(e),
        Ok((n, a, d)) => Ok((NodeView::CollisionSphere(n), a, d)),
    }
}

/// Reads a ColorAttrib as a stored object.
#[verifier::opaque]
pub open spec fn node_color_attrib(a: AssetView, d: DgView) -> PR<NodeView> {
    match sp_color_attrib(a, d) {
        Err(e) => Err(e),
        Ok((n, a, d)) => Ok((NodeView::ColorAttrib(n), a, d)),
    }
}

/// Reads a CullBinAttrib as a stored object.
#[verifier::opaque]
pub open spec fn node_cull_bin_attrib(a: AssetView, d: DgView) -> PR<NodeView> {
    match sp_cull_bin(a, d) {
        Err(e) => Err(e),
        Ok((n, a, d)) => Ok((NodeView::CullBinAttrib(n), a, d)),
    }
}

/// Reads a CullFaceAttrib as a stored object.
#[verifier::opaque]
pub open spec fn node_cull_face_attrib(a: AssetView, d: DgView) -> PR<NodeView> {
    match sp_cull_face(a, d) {
        Err(e) => Err(e),
        Ok((n, a, d)) => Ok((NodeView::CullFaceAttrib(n), a, d)),
    }
}

/// Reads a DecalEffect as a stored object.
#[verifier::opaque]
pub open spec fn node_decal_effect(a: AssetView, d: DgView) -> PR<NodeView> {
    Ok((NodeView::DecalEffect(DecalEffect {}), a, d))
}

/// Reads a DepthWriteAttrib as a stored object.
#[verifier::opaque]
pub open spec fn node_depth_write_attrib(a: AssetView, d: DgView) -> PR<NodeView> {
    match sp_depth_write(a, d) {
        Err(e) => Err(e),
        Ok((n, a, d)) => Ok((NodeView::DepthWriteAttrib(n), a, d)),
    }
}

/// Reads a Geom as a stored object.
#[verifier::opaque]
pub open spec fn node_geom(a: AssetView, d: DgView) -> PR<NodeView> {
    match sp_geom(a, d) {
        Err(e) => Err(e),
        Ok((n, a, d)) => Ok((NodeView::Geom(n), a, d)),
    }
}

/// Reads a GeomNode as a stored object.
#[verifier::opaque]
pub open spec fn node_geom_node(a: AssetView, d: DgView) -> PR<NodeView> {
    match sp_geom_node(a, d) {
        Err(e) => Err(e),
        Ok((n, a, d)) => Ok((NodeView::GeomNode(n), a, d)),
    }
}

/// Reads a GeomPrimitive as a stored object.
#[verifier::opaque]
pub open spec fn node_geom_primitive(a: AssetView, d: DgView) -> PR<NodeView> {
    match sp_geom_primitive(a, d) {
        Err(e) => Err(e),
        Ok((n, a, d)) => Ok((NodeView::GeomPrimitive(n), a, d)),
    }
}

/// Reads a GeomVertexArrayData as a stored object.
#[verifier::opaque]
pub open spec fn node_geom_vertex_array_data(a: AssetView, d: DgView) -> PR<NodeView> {
    match sp_array_data(a, d) {
        Err(e) => Err(e),
        Ok((n, a, d)) => Ok((NodeView::GeomVertexArrayData(n), a, d)),
    }
}

/// Reads a GeomVertexArrayFormat as a stored object.
#[verifier::opaque]
pub open spec fn node_geom_vertex_array_format(a: AssetView, d: DgView) -> PR<NodeView> {
    match sp_array_format(a, d) {
        Err(e) => Err(e),
        Ok((n, a, d)) => Ok((NodeView::GeomVertexArrayFormat(n), a, d)),
    }
}

/// Reads a GeomVertexData as a stored object.
#[verifier::opaque]
pub open spec fn node_geom_vertex_data(a: AssetView, d: DgView) -> PR<NodeView> {
    match sp_vertex_data(a, d) {
        Err(e) => Err(e),
        Ok((n, a, d)) => Ok((NodeView::GeomVertexData(n), a, d)),
    }
}

/// Reads a GeomVertexFormat as a stored object.
#[verifier::opaque]
pub open spec fn node_geom_vertex_format(a: AssetView, d: DgView) -> PR<NodeView> {
    match sp_vertex_format(a, d) {
        Err(e) => Err(e),
        Ok((n, a, d)) => Ok((NodeView::GeomVertexFormat(n), a, d)),
    }
}

/// Reads a InternalName as a stored object.
#[verifier::opaque]
pub open spec fn node_internal_name(a: AssetView, d: DgView) -> PR<NodeView> {
    match sp_internal_name(a, d) {
        Err(e) => Err(e),
        Ok((n, a, d)) => Ok((NodeView::InternalName(n), a, d)),
    }
}

/// Reads a JointVertexTransform as a stored object.
#[verifier::opaque]
pub open spec fn node_joint_vertex_transform(a: AssetView, d: DgView) -> PR<NodeView> {
    match sp_joint_vertex_transform(a, d) {
        Err(e) => Err(e),
        Ok((n, a, d)) => Ok((NodeView::JointVertexTransform(n), a, d)),
    }
}

/// Reads a LODNode as a stored object.
#[verifier::opaque]
pub open spec fn node_l_o_d_node(a: AssetView, d: DgView) -> PR<NodeView> {
    match sp_lod_node(a, d) {
        Err(e) => Err(e),
        Ok((n, a, d)) => Ok((NodeView::LODNode(n), a, d)),
    }
}

/// Reads a ModelNode as a stored object.
#[verifier::opaque]
pub open spec fn node_model_node(a: AssetView, d: DgView) -> PR<NodeView> {
    match sp_model_node(a, d) {
        Err(e) => Err(e),
        Ok((n, a, d)) => Ok((NodeView::ModelNode(n), a, d)),
    }
}

/// Reads a PandaNode as a stored object.
#[verifier::opaque]
pub open spec fn node_panda_node(a: AssetView, d: DgView) -> PR<NodeView> {
    match sp_panda_node(a, d) {
        Err(e) => Err(e),
        Ok((n, a, d)) => Ok((NodeView::PandaNode(n), a, d)),
    }
}

/// Reads a PartBundle as a stored object.
#[verifier::opaque]
pub open spec fn node_part_bundle(a: AssetView, d: DgView) -> PR<NodeView> {
    match sp_part_bundle(a, d) {
        Err(e) => Err(e),
        Ok((n, a, d)) => Ok((NodeView::PartBundle(n), a, d)),
    }
}

/// Reads a PartGroup as a stored object.
#[verifier::opaque]
pub open spec fn node_part_group(a: AssetView, d: DgView) -> PR<NodeView> {
    match sp_part_group(a, d) {
        Err(e) => Err(e),
        Ok((n, a, d)) => Ok((NodeView::PartGroup(n), a, d)),
    }
}

/// Reads a RenderEffects as a stored object.
#[verifier::opaque]
pub open spec fn node_render_effects(a: AssetView, d: DgView) -> PR<NodeView> {
    match sp_render_effects(a, d) {
        Err(e) => Err(e),
        Ok((n, a, d)) => Ok((NodeView::RenderEffects(n), a, d)),
    }
}

/// Reads a RenderState as a stored object.
#[verifier::opaque]
pub open spec fn node_render_state(a: AssetView, d: DgView) -> PR<NodeView> {
    match sp_render_state(a, d) {
        Err(e) => Err(e),
        Ok((n, a, d)) => Ok((NodeView::RenderState(n), a, d)),
    }
}

/// Reads an object of kind `k`.
#[verifier::opaque]
pub open spec fn sp_node(k: NodeKind, a: AssetView, d: DgView) -> PR<NodeView> {
    match k {
        NodeKind::AnimBundle => node_anim_bundle(a, d),
        NodeKind::AnimBundleNode => node_anim_bundle_node(a, d),
        NodeKind::AnimChannelMatrixXfmTable => node_anim_channel_matrix_xfm_table(a, d),
        NodeKind::AnimGroup => node_anim_group(a, d),
        NodeKind::BillboardEffect => node_billboard_effect(a, d),
        NodeKind::Character => node_character(a, d),
        NodeKind::CharacterJoint => node_character_joint(a, d),
        NodeKind::CharacterJointEffect => node_character_joint_effect(a, d),
        NodeKind::CollisionCapsule => node_collision_capsule(a, d),
        NodeKind::CollisionNode => node_collision_node(a, d),
        NodeKind::CollisionPolygon => node_collision_polygon(a, d),
        NodeKind::CollisionSphere => node_collision_sphere(a, d),
        NodeKind::ColorAttrib => node_color_attrib(a, d),
        NodeKind::CullBinAttrib => node_cull_bin_attrib(a, d),
        NodeKind::CullFaceAttrib => node_cull_face_attrib(a, d),
        NodeKind::DecalEffect => node_decal_effect(a, d),
        NodeKind::DepthWriteAttrib => node_depth_write_attrib(a, d),
        NodeKind::Geom => node_geom(a, d),
        NodeKind::GeomNode => node_geom_node(a, d),
        NodeKind::GeomPrimitive => node_geom_primitive(a, d),
        NodeKind::GeomVertexArrayData => node_geom_vertex_array_data(a, d),
        NodeKind::GeomVertexArrayFormat => node_geom_vertex_array_format(a, d),
        NodeKind::GeomVertexData => node_geom_vertex_data(a, d),
        NodeKind::GeomVertexFormat => node_geom_vertex_format(a, d),
        NodeKind::InternalName => node_internal_name(a, d),
        NodeKind::JointVertexTransform => node_joint_vertex_transform(a, d),
        NodeKind::LODNode => node_l_o_d_node(a, d),
        NodeKind::ModelNode => node_model_node(a, d),
        NodeKind::PandaNode => node_panda_node(a, d),
        NodeKind::PartBundle => node_part_bundle(a, d),
        NodeKind::PartGroup => node_part_group(a, d),
        NodeKind::RenderEffects => node_render_effects(a, d),
        NodeKind::RenderState => node_render_state(a, d),
        NodeKind::Unsupported => Err(Error::Unimplemented),
    }
}

fn stored_anim_bundle(loader: &mut BinaryAsset, data: &mut Datagram) -> (r: Result<StoredNode, Error>)
    requires
        old(data).wf(),
    ensures
        final(loader).header == old(loader).header,
        final(data).wf(),
        outcome(r, sp_node(NodeKind::AnimBundle, old(loader)@, old(data)@), final(loader)@, final(data)@),
{
    reveal(sp_node);
    reveal(node_anim_bundle);
    match AnimBundle::create(loader, data) {
        Ok(n) => Ok(StoredNode::AnimBundle(n)),
        Err(e) => Err(e),
    }
}

fn stored_anim_bundle_node(loader: &mut BinaryAsset, data: &mut Datagram) -> (r: Result<StoredNode, Error>)
    requires
        old(data).wf(),
    ensures
        final(loader).header == old(loader).header,
        final(data).wf(),
        outcome(r, sp_node(NodeKind::AnimBundleNode, old(loader)@, old(data)@), final(loader)@, final(data)@),
{
    reveal(sp_node);
    reveal(node_anim_bundle_node);
    match AnimBundleNode::create(loader, data) {
        Ok(n) => Ok(StoredNode::AnimBundleNode(n)),
        Err(e) => Err(e),
    }
}

fn stored_anim_channel_matrix_xfm_table(loader: &mut BinaryAsset, data: &mut Datagram) -> (r: Result<StoredNode, Error>)
    requires
        old(data).wf(),
    ensures
        final(loader).header == old(loader).header,
        final(data).wf(),
        outcome(r, sp_node(NodeKind::AnimChannelMatrixXfmTable, old(loader)@, old(data)@), final(loader)@, final(data)@),
{
    reveal(sp_node);
    reveal(node_anim_channel_matrix_xfm_table);
    match AnimChannelMatrixXfmTable::create(loader, data) {
        Ok(n) => Ok(StoredNode::AnimChannelMatrixXfmTable(n)),
        Err(e) => Err(e),
    }
}

fn stored_anim_group(loader: &mut BinaryAsset, data: &mut Datagram) -> (r: Result<StoredNode, Error>)
    requires
        old(data).wf(),
    ensures
        final(loader).header == old(loader).header,
        final(data).wf(),
        outcome(r, sp_node(NodeKind::AnimGroup, old(loader)@, old(data)@), final(loader)@, final(data)@),
{
    reveal(sp_node);
    reveal(node_anim_group);
    match AnimGroup::create(loader, data) {
        Ok(n) => Ok(StoredNode::AnimGroup(n)),
        Err(e) => Err(e),
    }
}

fn stored_billboard_effect(loader: &mut BinaryAsset, data: &mut Datagram) -> (r: Result<StoredNode, Error>)
    requires
        old(data).wf(),
    ensures
        final(loader).header == old(loader).header,
        final(data).wf(),
        outcome(r, sp_node(NodeKind::BillboardEffect, old(loader)@, old(data)@), final(loader)@, final(data)@),
{
    reveal(sp_node);
    reveal(node_billboard_effect);
    match BillboardEffect::create(loader, data) {
        Ok(n) => Ok(StoredNode::BillboardEffect(n)),
        Err(e) => Err(e),
    }
}

fn stored_character(loader: &mut BinaryAsset, data: &mut Datagram) -> (r: Result<StoredNode, Error>)
    requires
        old(data).wf(),
    ensures
        final(loader).header == old(loader).header,
        final(data).wf(),
        outcome(r, sp_node(NodeKind::Character, old(loader)@, old(data)@), final(loader)@, final(data)@),
{
    reveal(sp_node);
    reveal(node_character);
    match Character::create(loader, data) {
        Ok(n) => Ok(StoredNode::Character(n)),
        Err(e) => Err(e),
    }
}

fn stored_character_joint(loader: &mut BinaryAsset, data: &mut Datagram) -> (r: Result<StoredNode, Error>)
    requires
        old(data).wf(),
    ensures
        final(loader).header == old(loader).header,
        final(data).wf(),
        outcome(r, sp_node(NodeKind::CharacterJoint, old(loader)@, old(data)@), final(loader)@, final(data)@),
{
    reveal(sp_node);
    reveal(node_character_joint);
    match CharacterJoint::create(loader, data) {
        Ok(n) => Ok(StoredNode::CharacterJoint(n)),
        Err(e) => Err(e),
    }
}

fn stored_character_joint_effect(loader: &mut BinaryAsset, data: &mut Datagram) -> (r: Result<StoredNode, Error>)
    requires
        old(data).wf(),
    ensures
        final(loader).header == old(loader).header,
        final(data).wf(),
        outcome(r, sp_node(NodeKind::CharacterJointEffect, old(loader)@, old(data)@), final(loader)@, final(data)@),
{
    reveal(sp_node);
    reveal(node_character_joint_effect);
    match CharacterJointEffect::create(loader, data) {
        Ok(n) => Ok(StoredNode::CharacterJointEffect(n)),
        Err(e) => Err(e),
    }
}

fn stored_collision_capsule(loader: &mut BinaryAsset, data: &mut Datagram) -> (r: Result<StoredNode, Error>)
    requires
        old(data).wf(),
    ensures
        final(loader).header == old(loader).header,
        final(data).wf(),
        outcome(r, sp_node(NodeKind::CollisionCapsule, old(loader)@, old(data)@), final(loader)@, final(data)@),
{
    reveal(sp_node);
    reveal(node_collision_capsule);
    match CollisionCapsule::create(loader, data) {
        Ok(n) => Ok(StoredNode::CollisionCapsule(n)),
        Err(e) => Err(e),
    }
}

fn stored_collision_node(loader: &mut BinaryAsset, data: &mut Datagram) -> (r: Result<StoredNode, Error>)
    requires
        old(data).wf(),
    ensures
        final(loader).header == old(loader).header,
        final(data).wf(),
        outcome(r, sp_node(NodeKind::CollisionNode, old(loader)@, old(data)@), final(loader)@, final(data)@),
{
    reveal(sp_node);
    reveal(node_collision_node);
    match CollisionNode::create(loader, data) {
        Ok(n) => Ok(StoredNode::CollisionNode(n)),
        Err(e) => Err(e),
    }
}

fn stored_collision_polygon(loader: &mut BinaryAsset, data: &mut Datagram) -> (r: Result<StoredNode, Error>)
    requires
        old(data).wf(),
    ensures
        final(loader).header == old(loader).header,
        final(data).wf(),
        outcome(r, sp_node(NodeKind::CollisionPolygon, old(loader)@, old(data)@), final(loader)@, final(data)@),
{
    reveal(sp_node);
    reveal(node_collision_polygon);
    match CollisionPolygon::create(loader, data) {
        Ok(n) => Ok(StoredNode::CollisionPolygon(n)),
        Err(e) => Err(e),
    }
}

fn stored_collision_sphere(loader: &mut BinaryAsset, data: &mut Datagram) -> (r: Result<StoredNode, Error>)
    requires
        old(data).wf(),
    ensures
        final(loader).header == old(loader).header,
        final(data).wf(),
        outcome(r, sp_node(NodeKind::CollisionSphere, old(loader)@, old(data)@), final(loader)@, final(data)@),
{
    reveal(sp_node);
    reveal(node_collision_sphere);
    match CollisionSphere::create(loader, data) {
        Ok(n) => Ok(StoredNode::CollisionSphere(n)),
        Err(e) => Err(e),
    }
}

fn stored_color_attrib(loader: &mut BinaryAsset, data: &mut Datagram) -> (r: Result<StoredNode, Error>)
    requires
        old(data).wf(),
    ensures
        final(loader).header == old(loader).header,
        final(data).wf(),
        outcome(r, sp_node(NodeKind::ColorAttrib, old(loader)@, old(data)@), final(loader)@, final(data)@),
{
    reveal(sp_node);
    reveal(node_color_attrib);
    match ColorAttrib::create(loader, data) {
        Ok(n) => Ok(StoredNode::ColorAttrib(n)),
        Err(e) => Err(e),
    }
}

fn stored_cull_bin_attrib(loader: &mut BinaryAsset, data: &mut Datagram) -> (r: Result<StoredNode, Error>)
    requires
        old(data).wf(),
    ensures
        final(loader).header == old(loader).header,
        final(data).wf(),
        outcome(r, sp_node(NodeKind::CullBinAttrib, old(loader)@, old(data)@), final(loader)@, final(data)@),
{
    reveal(sp_node);
    reveal(node_cull_bin_attrib);
    match CullBinAttrib::create(loader, data) {
        Ok(n) => Ok(StoredNode::CullBinAttrib(n)),
        Err(e) => Err(e),
    }
}

fn stored_cull_face_attrib(loader: &mut BinaryAsset, data: &mut Datagram) -> (r: Result<StoredNode, Error>)
    requires
        old(data).wf(),
    ensures
        final(loader).header == old(loader).header,
        final(data).wf(),
        outcome(r, sp_node(NodeKind::CullFaceAttrib, old(loader)@, old(data)@), final(loader)@, final(data)@),
{
    reveal(sp_node);
    reveal(node_cull_face_attrib);
    match CullFaceAttrib::create(loader, data) {
        Ok(n) => Ok(StoredNode::CullFaceAttrib(n)),
        Err(e) => Err(e),
    }
}

fn stored_decal_effect(loader: &mut BinaryAsset, data: &mut Datagram) -> (r: Result<StoredNode, Error>)
    requires
        old(data).wf(),
    ensures
        final(loader).header == old(loader).header,
        final(data).wf(),
        outcome(r, sp_node(NodeKind::DecalEffect, old(loader)@, old(data)@), final(loader)@, final(data)@),
{
    reveal(sp_node);
    reveal(node_decal_effect);
    match DecalEffect::create(loader, data) {
        Ok(n) => Ok(StoredNode::DecalEffect(n)),
        Err(e) => Err(e),
    }
}

fn stored_depth_write_attrib(loader: &mut BinaryAsset, data: &mut Datagram) -> (r: Result<StoredNode, Error>)
    requires
        old(data).wf(),
    ensures
        final(loader).header == old(loader).header,
        final(data).wf(),
        outcome(r, sp_node(NodeKind::DepthWriteAttrib, old(loader)@, old(data)@), final(loader)@, final(data)@),
{
    reveal(sp_node);
    reveal(node_depth_write_attrib);
    match DepthWriteAttrib::create(loader, data) {
        Ok(n) => Ok(StoredNode::DepthWriteAttrib(n)),
        Err(e) => Err(e),
    }
}

fn stored_geom(loader: &mut BinaryAsset, data: &mut Datagram) -> (r: Result<StoredNode, Error>)
    requires
        old(data).wf(),
    ensures
        final(loader).header == old(loader).header,
        final(data).wf(),
        outcome(r, sp_node(NodeKind::Geom, old(loader)@, old(data)@), final(loader)@, final(data)@),
{
    reveal(sp_node);
    reveal(node_geom);
    match Geom::create(loader, data) {
        Ok(n) => Ok(StoredNode::Geom(n)),
        Err(e) => Err(e),
    }
}

fn stored_geom_node(loader: &mut BinaryAsset, data: &mut Datagram) -> (r: Result<StoredNode, Error>)
    requires
        old(data).wf(),
    ensures
        final(loader).header == old(loader).header,
        final(data).wf(),
        outcome(r, sp_node(NodeKind::GeomNode, old(loader)@, old(data)@), final(loader)@, final(data)@),
{
    reveal(sp_node);
    reveal(node_geom_node);
    match GeomNode::create(loader, data) {
        Ok(n) => Ok(StoredNode::GeomNode(n)),
        Err(e) => Err(e),
    }
}

fn stored_geom_primitive(loader: &mut BinaryAsset, data: &mut Datagram) -> (r: Result<StoredNode, Error>)
    requires
        old(data).wf(),
    ensures
        final(loader).header == old(loader).header,
        final(data).wf(),
        outcome(r, sp_node(NodeKind::GeomPrimitive, old(loader)@, old(data)@), final(loader)@, final(data)@),
{
    reveal(sp_node);
    reveal(node_geom_primitive);
    match GeomPrimitive::create(loader, data) {
        Ok(n) => Ok(StoredNode::GeomPrimitive(n)),
        Err(e) => Err(e),
    }
}

fn stored_geom_vertex_array_data(loader: &mut BinaryAsset, data: &mut Datagram) -> (r: Result<StoredNode, Error>)
    requires
        old(data).wf(),
    ensures
        final(loader).header == old(loader).header,
        final(data).wf(),
        outcome(r, sp_node(NodeKind::GeomVertexArrayData, old(loader)@, old(data)@), final(loader)@, final(data)@),
{
    reveal(sp_node);
    reveal(node_geom_vertex_array_data);
    match GeomVertexArrayData::create(loader, data) {
        Ok(n) => Ok(StoredNode::GeomVertexArrayData(n)),
        Err(e) => Err(e),
    }
}

fn stored_geom_vertex_array_format(loader: &mut BinaryAsset, data: &mut Datagram) -> (r: Result<StoredNode, Error>)
    requires
        old(data).wf(),
    ensures
        final(loader).header == old(loader).header,
        final(data).wf(),
        outcome(r, sp_node(NodeKind::GeomVertexArrayFormat, old(loader)@, old(data)@), final(loader)@, final(data)@),
{
    reveal(sp_node);
    reveal(node_geom_vertex_array_format);
    match GeomVertexArrayFormat::create(loader, data) {
        Ok(n) => Ok(StoredNode::GeomVertexArrayFormat(n)),
        Err(e) => Err(e),
    }
}

fn stored_geom_vertex_data(loader: &mut BinaryAsset, data: &mut Datagram) -> (r: Result<StoredNode, Error>)
    requires
        old(data).wf(),
    ensures
        final(loader).header == old(loader).header,
        final(data).wf(),
        outcome(r, sp_node(NodeKind::GeomVertexData, old(loader)@, old(data)@), final(loader)@, final(data)@),
{
    reveal(sp_node);
    reveal(node_geom_vertex_data);
    match GeomVertexData::create(loader, data) {
        Ok(n) => Ok(StoredNode::GeomVertexData(n)),
        Err(e) => Err(e),
    }
}

fn stored_geom_vertex_format(loader: &mut BinaryAsset, data: &mut Datagram) -> (r: Result<StoredNode, Error>)
    requires
        old(data).wf(),
    ensures
        final(loader).header == old(loader).header,
        final(data).wf(),
        outcome(r, sp_node(NodeKind::GeomVertexFormat, old(loader)@, old(data)@), final(loader)@, final(data)@),
{
    reveal(sp_node);
    reveal(node_geom_vertex_format);
    match GeomVertexFormat::create(loader, data) {
        Ok(n) => Ok(StoredNode::GeomVertexFormat(n)),
        Err(e) => Err(e),
    }
}

fn stored_internal_name(loader: &mut BinaryAsset, data: &mut Datagram) -> (r: Result<StoredNode, Error>)
    requires
        old(data).wf(),
    ensures
        final(loader).header == old(loader).header,
        final(data).wf(),
        outcome(r, sp_node(NodeKind::InternalName, old(loader)@, old(data)@), final(loader)@, final(data)@),
{
    reveal(sp_node);
    reveal(node_internal_name);
    match InternalName::create(loader, data) {
        Ok(n) => Ok(StoredNode::InternalName(n)),
        Err(e) => Err(e),
    }
}

fn stored_joint_vertex_transform(loader: &mut BinaryAsset, data: &mut Datagram) -> (r: Result<StoredNode, Error>)
    requires
        old(data).wf(),
    ensures
        final(loader).header == old(loader).header,
        final(data).wf(),
        outcome(r, sp_node(NodeKind::JointVertexTransform, old(loader)@, old(data)@), final(loader)@, final(data)@),
{
    reveal(sp_node);
    reveal(node_joint_vertex_transform);
    match JointVertexTransform::create(loader, data) {
        Ok(n) => Ok(StoredNode::JointVertexTransform(n)),
        Err(e) => Err(e),
    }
}

fn stored_l_o_d_node(loader: &mut BinaryAsset, data: &mut Datagram) -> (r: Result<StoredNode, Error>)
    requires
        old(data).wf(),
    ensures
        final(loader).header == old(loader).header,
        final(data).wf(),
        outcome(r, sp_node(NodeKind::LODNode, old(loader)@, old(data)@), final(loader)@, final(data)@),
{
    reveal(sp_node);
    reveal(node_l_o_d_node);
    match LODNode::create(loader, data) {
        Ok(n) => Ok(StoredNode::LODNode(n)),
        Err(e) => Err(e),
    }
}

fn stored_model_node(loader: &mut BinaryAsset, data: &mut Datagram) -> (r: Result<StoredNode, Error>)
    requires
        old(data).wf(),
    ensures
        final(loader).header == old(loader).header,
        final(data).wf(),
        outcome(r, sp_node(NodeKind::ModelNode, old(loader)@, old(data)@), final(loader)@, final(data)@),
{
    reveal(sp_node);
    reveal(node_model_node);
    match ModelNode::create(loader, data) {
        Ok(n) => Ok(StoredNode::ModelNode(n)),
        Err(e) => Err(e),
    }
}

fn stored_panda_node(loader: &mut BinaryAsset, data: &mut Datagram) -> (r: Result<StoredNode, Error>)
    requires
        old(data).wf(),
    ensures
        final(loader).header == old(loader).header,
        final(data).wf(),
        outcome(r, sp_node(NodeKind::PandaNode, old(loader)@, old(data)@), final(loader)@, final(data)@),
{
    reveal(sp_node);
    reveal(node_panda_node);
    match PandaNode::create(loader, data) {
        Ok(n) => Ok(StoredNode::PandaNode(n)),
        Err(e) => Err(e),
    }
}

fn stored_part_bundle(loader: &mut BinaryAsset, data: &mut Datagram) -> (r: Result<StoredNode, Error>)
    requires
        old(data).wf(),
    ensures
        final(loader).header == old(loader).header,
        final(data).wf(),
        outcome(r, sp_node(NodeKind::PartBundle, old(loader)@, old(data)@), final(loader)@, final(data)@),
{
    reveal(sp_node);
    reveal(node_part_bundle);
    match PartBundle::create(loader, data) {
        Ok(n) => Ok(StoredNode::PartBundle(n)),
        Err(e) => Err(e),
    }
}

fn stored_part_group(loader: &mut BinaryAsset, data: &mut Datagram) -> (r: Result<StoredNode, Error>)
    requires
        old(data).wf(),
    ensures
        final(loader).header == old(loader).header,
        final(data).wf(),
        outcome(r, sp_node(NodeKind::PartGroup, old(loader)@, old(data)@), final(loader)@, final(data)@),
{
    reveal(sp_node);
    reveal(node_part_group);
    match PartGroup::create(loader, data) {
        Ok(n) => Ok(StoredNode::PartGroup(n)),
        Err(e) => Err(e),
    }
}

fn stored_render_effects(loader: &mut BinaryAsset, data: &mut Datagram) -> (r: Result<StoredNode, Error>)
    requires
        old(data).wf(),
    ensures
        final(loader).header == old(loader).header,
        final(data).wf(),
        outcome(r, sp_node(NodeKind::RenderEffects, old(loader)@, old(data)@), final(loader)@, final(data)@),
{
    reveal(sp_node);
    reveal(node_render_effects);
    match RenderEffects::create(loader, data) {
        Ok(n) => Ok(StoredNode::RenderEffects(n)),
        Err(e) => Err(e),
    }
}

fn stored_render_state(loader: &mut BinaryAsset, data: &mut Datagram) -> (r: Result<StoredNode, Error>)
    requires
        old(data).wf(),
    ensures
        final(loader).header == old(loader).header,
        final(data).wf(),
        outcome(r, sp_node(NodeKind::RenderState, old(loader)@, old(data)@), final(loader)@, final(data)@),
{
    reveal(sp_node);
    reveal(node_render_state);
    match RenderState::create(loader, data) {
        Ok(n) => Ok(StoredNode::RenderState(n)),
        Err(e) => Err(e),
    }
}

/// Reads an object of kind `k` (see `sp_node`).
pub fn create_node(k: NodeKind, loader: &mut BinaryAsset, data: &mut Datagram) -> (r: Result<StoredNode, Error>)
    requires
        old(data).wf(),
    ensures
        final(loader).header == old(loader).header,
        final(data).wf(),
        outcome(r, sp_node(k, old(loader)@, old(data)@), final(loader)@, final(data)@),
{
    match k {
        NodeKind::AnimBundle => stored_anim_bundle(loader, data),
        NodeKind::AnimBundleNode => stored_anim_bundle_node(loader, data),
        NodeKind::AnimChannelMatrixXfmTable => stored_anim_channel_matrix_xfm_table(loader, data),
        NodeKind::AnimGroup => stored_anim_group(loader, data),
        NodeKind::BillboardEffect => stored_billboard_effect(loader, data),
        NodeKind::Character => stored_character(loader, data),
        NodeKind::CharacterJoint => stored_character_joint(loader, data),
        NodeKind::CharacterJointEffect => stored_character_joint_effect(loader, data),
        NodeKind::CollisionCapsule => stored_collision_capsule(loader, data),
        NodeKind::CollisionNode => stored_collision_node(loader, data),
        NodeKind::CollisionPolygon => stored_collision_polygon(loader, data),
        NodeKind::CollisionSphere => stored_collision_sphere(loader, data),
        NodeKind::ColorAttrib => stored_color_attrib(loader, data),
        NodeKind::CullBinAttrib => stored_cull_bin_attrib(loader, data),
        NodeKind::CullFaceAttrib => stored_cull_face_attrib(loader, data),
        NodeKind::DecalEffect => stored_decal_effect(loader, data),
        NodeKind::DepthWriteAttrib => stored_depth_write_attrib(loader, data),
        NodeKind::Geom => stored_geom(loader, data),
        NodeKind::GeomNode => stored_geom_node(loader, data),
        NodeKind::GeomPrimitive => stored_geom_primitive(loader, data),
        NodeKind::GeomVertexArrayData => stored_geom_vertex_array_data(loader, data),
        NodeKind::GeomVertexArrayFormat => stored_geom_vertex_array_format(loader, data),
        NodeKind::GeomVertexData => stored_geom_vertex_data(loader, data),
        NodeKind::GeomVertexFormat => stored_geom_vertex_format(loader, data),
        NodeKind::InternalName => stored_internal_name(loader, data),
        NodeKind::JointVertexTransform => stored_joint_vertex_transform(loader, data),
        NodeKind::LODNode => stored_l_o_d_node(loader, data),
        NodeKind::ModelNode => stored_model_node(loader, data),
        NodeKind::PandaNode => stored_panda_node(loader, data),
        NodeKind::PartBundle => stored_part_bundle(loader, data),
        NodeKind::PartGroup => stored_part_group(loader, data),
        NodeKind::RenderEffects => stored_render_effects(loader, data),
        NodeKind::RenderState => stored_render_state(loader, data),
        NodeKind::Unsupported => {
            reveal(sp_node);
            Err(Error::Unimplemented)
        },
    }
}

/// Reads the object of the type with handle `h` and stores it: a handle without a reader
/// gives `InvalidTypeHandle`, a type whose reader is not part of this library
/// `UnsupportedType`.
pub open spec fn sp_make_from_bam(a: AssetView, d: DgView, h: u16) -> Result<(AssetView, DgView), Error> {
    if !a.types.contains_key(h) {
        Err(Error::InvalidTypeHandle(h))
    } else {
        match kind_of(a.types[h]) {
            None => Err(Error::InvalidTypeHandle(h)),
            Some(NodeKind::Unsupported) => Err(Error::UnsupportedType(h)),
            Some(k) => match sp_node(k, a, d) {
                Err(e) => Err(e),
                Ok((n, a2, d2)) => Ok((AssetView { nodes: a2.nodes.push(n), ..a2 }, d2)),
            },
        }
    }
}

impl BinaryAsset {
    /// Reads the object of the type with handle `type_handle` and stores it (see
    /// `sp_make_from_bam`).
    pub fn make_from_bam(&mut self, data: &mut Datagram, type_handle: u16) -> (r: Result<(), Error>)
        requires
            old(data).wf(),
        ensures
            final(self).header == old(self).header,
            final(data).wf(),
            match sp_make_from_bam(old(self)@, old(data)@, type_handle) {
                Ok((a, d)) => r is Ok && final(self)@ == a && final(data)@ == d,
                Err(e) => r == Err::<(), Error>(e),
            },
    {
        let kind = match self.type_registry.get(type_handle) {
            Some(name) => classify(&name),
            None => return Err(Error::InvalidTypeHandle(type_handle)),
        };
        match kind {
            None => Err(Error::InvalidTypeHandle(type_handle)),
            Some(NodeKind::Unsupported) => Err(Error::UnsupportedType(type_handle)),
            Some(k) => match create_node(k, self, data) {
                Ok(node) => {
                    self.nodes.push(node);
                    Ok(())
                },
                Err(e) => Err(e),
            },
        }
    }
}

} // verus!
