//! Storage of the objects read from a Binary Asset, by object index.

use vstd::prelude::*;

use crate::nodes::anim::{AnimBundle, AnimBundleView, AnimChannelMatrixXfmTable, AnimChannelMatrixXfmTableView, AnimGroup, AnimGroupView, CharacterJoint, CharacterJointView, JointVertexTransform, PartBundle, PartBundleView, PartGroup, PartGroupView};
use crate::nodes::attribs::{BillboardEffect, BillboardEffectView, CharacterJointEffect, ColorAttrib, ColorAttribView, CullBinAttrib, CullBinAttribView, CullFaceAttrib, DecalEffect, DepthWriteAttrib, RenderEffects, RenderEffectsView, RenderState, RenderStateView};
use crate::nodes::collision::{CollisionCapsule, CollisionCapsuleView, CollisionPolygon, CollisionPolygonView, CollisionSphere, CollisionSphereView};
use crate::nodes::geom::{Geom, GeomPrimitive, GeomVertexArrayData, GeomVertexArrayDataView, GeomVertexArrayFormat, GeomVertexArrayFormatView, GeomVertexData, GeomVertexDataView, GeomVertexFormat, GeomVertexFormatView, GeomView, InternalName, InternalNameView};
use crate::nodes::panda_node::{AnimBundleNode, AnimBundleNodeView, Character, CharacterView, CollisionNode, CollisionNodeView, GeomNode, GeomNodeView, LODNode, LODNodeView, ModelNode, ModelNodeView, PandaNode, PandaNodeView};

verus! {

/// One object of the scene graph.
pub enum StoredNode {
    AnimBundle(AnimBundle),
    AnimBundleNode(AnimBundleNode),
    AnimChannelMatrixXfmTable(AnimChannelMatrixXfmTable),
    AnimGroup(AnimGroup),
    BillboardEffect(BillboardEffect),
    Character(Character),
    CharacterJoint(CharacterJoint),
    CharacterJointEffect(CharacterJointEffect),
    CollisionCapsule(CollisionCapsule),
    CollisionNode(CollisionNode),
    CollisionPolygon(CollisionPolygon),
    CollisionSphere(CollisionSphere),
    ColorAttrib(ColorAttrib),
    CullBinAttrib(CullBinAttrib),
    CullFaceAttrib(CullFaceAttrib),
    DecalEffect(DecalEffect),
    DepthWriteAttrib(DepthWriteAttrib),
    Geom(Geom),
    GeomNode(GeomNode),
    GeomPrimitive(GeomPrimitive),
    GeomVertexArrayData(GeomVertexArrayData),
    GeomVertexArrayFormat(GeomVertexArrayFormat),
    GeomVertexData(GeomVertexData),
    GeomVertexFormat(GeomVertexFormat),
    InternalName(InternalName),
    JointVertexTransform(JointVertexTransform),
    LODNode(LODNode),
    ModelNode(ModelNode),
    PandaNode(PandaNode),
    PartBundle(PartBundle),
    PartGroup(PartGroup),
    RenderEffects(RenderEffects),
    RenderState(RenderState),
}

/// The abstract value of a stored object.
pub enum NodeView {
    AnimBundle(AnimBundleView),
    AnimBundleNode(AnimBundleNodeView),
    AnimChannelMatrixXfmTable(AnimChannelMatrixXfmTableView),
    AnimGroup(AnimGroupView),
    BillboardEffect(BillboardEffectView),
    Character(CharacterView),
    CharacterJoint(CharacterJointView),
    CharacterJointEffect(CharacterJointEffect),
    CollisionCapsule(CollisionCapsuleView),
    CollisionNode(CollisionNodeView),
    CollisionPolygon(CollisionPolygonView),
    CollisionSphere(CollisionSphereView),
    ColorAttrib(ColorAttribView),
    CullBinAttrib(CullBinAttribView),
    CullFaceAttrib(CullFaceAttrib),
    DecalEffect(DecalEffect),
    DepthWriteAttrib(DepthWriteAttrib),
    Geom(GeomView),
    GeomNode(GeomNodeView),
    GeomPrimitive(GeomPrimitive),
    GeomVertexArrayData(GeomVertexArrayDataView),
    GeomVertexArrayFormat(GeomVertexArrayFormatView),
    GeomVertexData(GeomVertexDataView),
    GeomVertexFormat(GeomVertexFormatView),
    InternalName(InternalNameView),
    JointVertexTransform(JointVertexTransform),
    LODNode(LODNodeView),
    ModelNode(ModelNodeView),
    PandaNode(PandaNodeView),
    PartBundle(PartBundleView),
    PartGroup(PartGroupView),
    RenderEffects(RenderEffectsView),
    RenderState(RenderStateView),
}

impl View for StoredNode {
    type V = NodeView;

    open spec fn view(&self) -> NodeView {
        match self {
            StoredNode::AnimBundle(n) => NodeView::AnimBundle(n@),
            StoredNode::AnimBundleNode(n) => NodeView::AnimBundleNode(n@),
            StoredNode::AnimChannelMatrixXfmTable(n) => NodeView::AnimChannelMatrixXfmTable(n@),
            StoredNode::AnimGroup(n) => NodeView::AnimGroup(n@),
            StoredNode::BillboardEffect(n) => NodeView::BillboardEffect(n@),
            StoredNode::Character(n) => NodeView::Character(n@),
            StoredNode::CharacterJoint(n) => NodeView::CharacterJoint(n@),
            StoredNode::CharacterJointEffect(n) => NodeView::CharacterJointEffect(n@),
            StoredNode::CollisionCapsule(n) => NodeView::CollisionCapsule(n@),
            StoredNode::CollisionNode(n) => NodeView::CollisionNode(n@),
            StoredNode::CollisionPolygon(n) => NodeView::CollisionPolygon(n@),
            StoredNode::CollisionSphere(n) => NodeView::CollisionSphere(n@),
            StoredNode::ColorAttrib(n) => NodeView::ColorAttrib(n@),
            StoredNode::CullBinAttrib(n) => NodeView::CullBinAttrib(n@),
            StoredNode::CullFaceAttrib(n) => NodeView::CullFaceAttrib(n@),
            StoredNode::DecalEffect(n) => NodeView::DecalEffect(n@),
            StoredNode::DepthWriteAttrib(n) => NodeView::DepthWriteAttrib(n@),
            StoredNode::Geom(n) => NodeView::Geom(n@),
            StoredNode::GeomNode(n) => NodeView::GeomNode(n@),
            StoredNode::GeomPrimitive(n) => NodeView::GeomPrimitive(n@),
            StoredNode::GeomVertexArrayData(n) => NodeView::GeomVertexArrayData(n@),
            StoredNode::GeomVertexArrayFormat(n) => NodeView::GeomVertexArrayFormat(n@),
            StoredNode::GeomVertexData(n) => NodeView::GeomVertexData(n@),
            StoredNode::GeomVertexFormat(n) => NodeView::GeomVertexFormat(n@),
            StoredNode::InternalName(n) => NodeView::InternalName(n@),
            StoredNode::JointVertexTransform(n) => NodeView::JointVertexTransform(n@),
            StoredNode::LODNode(n) => NodeView::LODNode(n@),
            StoredNode::ModelNode(n) => NodeView::ModelNode(n@),
            StoredNode::PandaNode(n) => NodeView::PandaNode(n@),
            StoredNode::PartBundle(n) => NodeView::PartBundle(n@),
            StoredNode::PartGroup(n) => NodeView::PartGroup(n@),
            StoredNode::RenderEffects(n) => NodeView::RenderEffects(n@),
            StoredNode::RenderState(n) => NodeView::RenderState(n@),
        }
    }
}

/// The objects read so far, in the order they were read.
pub struct NodeStorage {
    pub nodes: Vec<StoredNode>,
}

impl View for NodeStorage {
    type V = Seq<NodeView>;

    open spec fn view(&self) -> Seq<NodeView> {
        self.nodes@.map_values(|n: StoredNode| n@)
    }
}

/// A read after a write gives back what was written: the object stored last is found at the
/// index that storing it returned, and every object stored before keeps its index.
pub proof fn lemma_push_get(s: Seq<NodeView>, n: NodeView)
    ensures
        s.push(n)[s.len() as int] == n,
        s.push(n).len() == s.len() + 1,
        forall|i: int| 0 <= i < s.len() ==> #[trigger] s.push(n)[i] == s[i],
{
}

impl NodeStorage {
    pub fn new() -> (s: NodeStorage)
        ensures
            s@ == Seq::<NodeView>::empty(),
    {
        let s = NodeStorage { nodes: Vec::new() };
        assert(s@ =~= Seq::<NodeView>::empty());
        s
    }

    /// The number of stored objects.
    pub fn len(&self) -> (n: usize)
        ensures
            n == self@.len(),
    {
        self.nodes.len()
    }

    /// Stores an object and returns its index.
    pub fn push(&mut self, node: StoredNode) -> (id: usize)
        ensures
            id == old(self)@.len(),
            final(self)@ == old(self)@.push(node@),
    {
        let id = self.nodes.len();
        self.nodes.push(node);
        assert(self@ =~= old(self)@.push(node@));
        id
    }

    /// The object with index `id`, if there is one.
    pub fn get(&self, id: usize) -> (r: Option<&StoredNode>)
        ensures
            id < self@.len() ==> (r matches Some(n) && n@ == self@[id as int]),
            id >= self@.len() ==> r is None,
    {
        if id < self.nodes.len() {
            Some(&self.nodes[id])
        } else {
            None
        }
    }
}

} // verus!
