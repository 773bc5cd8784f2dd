//! The decisions of walking a loaded scene graph to build a scene: what is done at each node of
//! the node tree, which material settings a render state gives, what is done at each part of a
//! character's skeleton and at each group of an animation. Building the scene itself (the
//! entities, meshes, materials and animation curves of a renderer) is left to the caller, which
//! visits the objects these functions name, in the order they name them.

use vstd::prelude::*;

use crate::bam::{AssetView, BinaryAsset};
use crate::datagram::FloatBits;
use crate::nodes::attribs::effective_mode;
use crate::nodes::enums::{ColorType, CullMode, DepthMode};
use crate::nodes::graph::{firsts, push_all, push_firsts};
use crate::nodes::panda_node::{PandaNode, PandaNodeView};
use crate::nodes::storage::{NodeView, StoredNode};
use crate::scene::{node_at, render_effects_at, sp_effects, sp_effects_from, Effects, NodeType, Panda3DError};

verus! {

/// What is done at one node of the node tree.
pub enum NodeStep {
    /// A ModelNode, PandaNode or GeomNode: an entity with `effects` is made, given a mesh for
    /// each (Geom, RenderState) pair of `geoms`, and `children` are visited under it.
    Spawn { effects: Effects, geoms: Vec<(u32, u32)>, children: Vec<u32> },
    /// A Character: an entity with `effects` is made, the skeleton of the joint bundle `bundle`
    /// is built under it, and `children` are visited under it with that skeleton.
    Character { effects: Effects, bundle: u32, children: Vec<u32> },
    /// An AnimBundleNode: no entity is made; the animation of the AnimBundle `bundle` is built.
    Animation { bundle: u32 },
    /// An object of another type: nothing is built.
    Unexpected,
    /// No object has this index: nothing is built.
    Missing,
}

/// The abstract value of a node step.
pub enum NodeStepView {
    Spawn { effects: Effects, geoms: Seq<(u32, u32)>, children: Seq<u32> },
    Character { effects: Effects, bundle: u32, children: Seq<u32> },
    Animation { bundle: u32 },
    Unexpected,
    Missing,
}

impl View for NodeStep {
    type V = NodeStepView;

    open spec fn view(&self) -> NodeStepView {
        match self {
            NodeStep::Spawn { effects, geoms, children } => NodeStepView::Spawn {
                effects: *effects,
                geoms: geoms@,
                children: children@,
            },
            NodeStep::Character { effects, bundle, children } => NodeStepView::Character {
                effects: *effects,
                bundle: *bundle,
                children: children@,
            },
            NodeStep::Animation { bundle } => NodeStepView::Animation { bundle: *bundle },
            NodeStep::Unexpected => NodeStepView::Unexpected,
            NodeStep::Missing => NodeStepView::Missing,
        }
    }
}

/// The effects of the entity made for a node: its state must be a RenderState, and its effects
/// are those of its RenderEffects added to its parent's.
pub open spec fn sp_entity_effects(a: AssetView, parent: Option<Effects>, p: PandaNodeView) -> Result<Effects, Panda3DError> {
    match node_at(a.nodes, p.state_ref as int) {
        Some(NodeView::RenderState(_)) => sp_effects(a, parent, p.effects_ref as usize),
        _ => Err(Panda3DError::WrongNode { node_index: p.state_ref as usize, node_type: NodeType::RenderState }),
    }
}

/// A Character whose entity can be made but that has no joint bundle: the one node at which
/// the walk cannot go on.
pub open spec fn bundleless_character(a: AssetView, parent: Option<Effects>, i: usize) -> bool {
    match node_at(a.nodes, i as int) {
        Some(NodeView::Character(c)) => c.inner.bundle_refs.len() == 0 && sp_entity_effects(
            a,
            parent,
            c.inner.inner,
        ) is Ok,
        _ => false,
    }
}

/// What is done at object `i` of the node tree, under a parent with effects `parent` (none at
/// the top). A Character's skeleton comes from its first joint bundle.
pub open spec fn sp_node_step(a: AssetView, parent: Option<Effects>, i: usize) -> Result<NodeStepView, Panda3DError> {
    match node_at(a.nodes, i as int) {
        None => Ok(NodeStepView::Missing),
        Some(NodeView::ModelNode(n)) => match sp_entity_effects(a, parent, n.inner) {
            Ok(e) => Ok(NodeStepView::Spawn { effects: e, geoms: Seq::empty(), children: firsts(n.inner.child_refs) }),
            Err(x) => Err(x),
        },
        Some(NodeView::PandaNode(n)) => match sp_entity_effects(a, parent, n) {
            Ok(e) => Ok(NodeStepView::Spawn { effects: e, geoms: Seq::empty(), children: firsts(n.child_refs) }),
            Err(x) => Err(x),
        },
        Some(NodeView::GeomNode(n)) => match sp_entity_effects(a, parent, n.inner) {
            Ok(e) => Ok(NodeStepView::Spawn { effects: e, geoms: n.geom_refs, children: firsts(n.inner.child_refs) }),
            Err(x) => Err(x),
        },
        Some(NodeView::Character(c)) => match sp_entity_effects(a, parent, c.inner.inner) {
            Ok(e) => Ok(
                NodeStepView::Character {
                    effects: e,
                    bundle: c.inner.bundle_refs[0],
                    children: firsts(c.inner.inner.child_refs),
                },
            ),
            Err(x) => Err(x),
        },
        Some(NodeView::AnimBundleNode(n)) => Ok(NodeStepView::Animation { bundle: n.anim_bundle_ref }),
        Some(_) => Ok(NodeStepView::Unexpected),
    }
}

/// A root ModelNode without children: the walk has nowhere to start.
pub open spec fn childless_root(a: AssetView) -> bool {
    match node_at(a.nodes, 0) {
        Some(NodeView::ModelNode(n)) => n.inner.child_refs.len() == 0,
        _ => false,
    }
}

/// Where the walk of the node tree starts: object 0 must be a ModelNode, a placeholder root,
/// and the walk starts at its first child.
pub open spec fn sp_scene_root(a: AssetView) -> Result<u32, Panda3DError> {
    match node_at(a.nodes, 0) {
        Some(NodeView::ModelNode(n)) => Ok(n.inner.child_refs[0].0),
        _ => Err(Panda3DError::WrongNode { node_index: 0, node_type: NodeType::ModelNode }),
    }
}

/// Where the walk of the node tree starts (see `sp_scene_root`).
pub fn scene_root(assets: &BinaryAsset) -> (r: Result<u32, Panda3DError>)
    requires
        !childless_root(assets@),
    ensures
        r == sp_scene_root(assets@),
{
    match assets.nodes.get(0) {
        Some(StoredNode::ModelNode(n)) => Ok(n.inner.child_refs[0].0),
        _ => Err(Panda3DError::WrongNode { node_index: 0, node_type: NodeType::ModelNode }),
    }
}

/// The effects of the entity made for a node (see `sp_entity_effects`).
pub(crate) fn entity_effects(assets: &BinaryAsset, parent: Option<&Effects>, p: &PandaNode) -> (r: Result<Effects, Panda3DError>)
    ensures
        r == sp_entity_effects(assets@, match parent { Some(e) => Some(*e), None => None }, p@),
{
    match assets.nodes.get(p.state_ref as usize) {
        Some(StoredNode::RenderState(_)) => {},
        _ => {
            return Err(Panda3DError::WrongNode { node_index: p.state_ref as usize, node_type: NodeType::RenderState });
        },
    }
    Effects::new(assets, parent, p.effects_ref as usize)
}

/// The first component of each pair (see `firsts`).
fn first_refs(s: &Vec<(u32, i32)>) -> (r: Vec<u32>)
    ensures
        r@ == firsts(s@),
{
    let mut v: Vec<u32> = Vec::new();
    push_firsts(&mut v, s);
    assert(v@ =~= firsts(s@));
    v
}

/// A copy of a list of pairs.
fn copy_pairs(s: &Vec<(u32, u32)>) -> (r: Vec<(u32, u32)>)
    ensures
        r@ == s@,
{
    let mut v: Vec<(u32, u32)> = Vec::new();
    let mut i: usize = 0;
    while i < s.len()
        invariant
            i <= s@.len(),
            v@ == s@.subrange(0, i as int),
        decreases s@.len() - i,
    {
        v.push(s[i]);
        i = i + 1;
        assert(v@ =~= s@.subrange(0, i as int));
    }
    assert(s@.subrange(0, s@.len() as int) =~= s@);
    v
}

/// What is done at object `node_index` of the node tree (see `sp_node_step`).
pub fn node_step(assets: &BinaryAsset, parent: Option<&Effects>, node_index: usize) -> (r: Result<NodeStep, Panda3DError>)
    requires
        !bundleless_character(assets@, match parent { Some(e) => Some(*e), None => None }, node_index),
    ensures
        match sp_node_step(assets@, match parent { Some(e) => Some(*e), None => None }, node_index) {
            Ok(s) => r matches Ok(t) && t@ == s,
            Err(e) => r == Err::<NodeStep, Panda3DError>(e),
        },
{
    match assets.nodes.get(node_index) {
        None => Ok(NodeStep::Missing),
        Some(StoredNode::ModelNode(n)) => {
            let effects = entity_effects(assets, parent, &n.inner)?;
            Ok(NodeStep::Spawn { effects, geoms: Vec::new(), children: first_refs(&n.inner.child_refs) })
        },
        Some(StoredNode::PandaNode(n)) => {
            let effects = entity_effects(assets, parent, n)?;
            Ok(NodeStep::Spawn { effects, geoms: Vec::new(), children: first_refs(&n.child_refs) })
        },
        Some(StoredNode::GeomNode(n)) => {
            let effects = entity_effects(assets, parent, &n.inner)?;
            Ok(NodeStep::Spawn { effects, geoms: copy_pairs(&n.geom_refs), children: first_refs(&n.inner.child_refs) })
        },
        Some(StoredNode::Character(c)) => {
            let effects = entity_effects(assets, parent, &c.inner.inner)?;
            Ok(
                NodeStep::Character {
                    effects,
                    bundle: c.inner.bundle_refs[0],
                    children: first_refs(&c.inner.inner.child_refs),
                },
            )
        },
        Some(StoredNode::AnimBundleNode(n)) => Ok(NodeStep::Animation { bundle: n.anim_bundle_ref }),
        Some(_) => Ok(NodeStep::Unexpected),
    }
}

/// Which faces a material culls.
#[derive(Clone, Copy, Debug, PartialEq, Eq, Structural)]
pub enum FaceCulling {
    Disabled,
    Back,
    Front,
}

/// The base color of a material: plain white, or a flat color (four floats, as stored).
pub enum BaseColor {
    White,
    Flat(Vec<FloatBits>),
}

/// The abstract value of a base color.
pub enum BaseColorView {
    White,
    Flat(Seq<FloatBits>),
}

impl View for BaseColor {
    type V = BaseColorView;

    open spec fn view(&self) -> BaseColorView {
        match self {
            BaseColor::White => BaseColorView::White,
            BaseColor::Flat(c) => BaseColorView::Flat(c@),
        }
    }
}

/// The settings a render state gives the material of a mesh. `culling` is `None` where no
/// CullFaceAttrib applies and the material keeps its default culling. Every material is
/// unlit and without fog; its roughness (1.0) is a float and left to the caller.
pub struct MaterialSettings {
    pub base_color: BaseColor,
    pub culling: Option<FaceCulling>,
    pub depth_write_enabled: bool,
    pub unlit: bool,
    pub fog_enabled: bool,
}

/// The abstract value of material settings.
pub struct MaterialSettingsView {
    pub base_color: BaseColorView,
    pub culling: Option<FaceCulling>,
    pub depth_write_enabled: bool,
    pub unlit: bool,
    pub fog_enabled: bool,
}

impl View for MaterialSettings {
    type V = MaterialSettingsView;

    open spec fn view(&self) -> MaterialSettingsView {
        MaterialSettingsView {
            base_color: self.base_color@,
            culling: self.culling,
            depth_write_enabled: self.depth_write_enabled,
            unlit: self.unlit,
            fog_enabled: self.fog_enabled,
        }
    }
}

/// The settings before any attribute: white, default culling, depth writes on, unlit, no fog.
pub open spec fn default_material() -> MaterialSettingsView {
    MaterialSettingsView {
        base_color: BaseColorView::White,
        culling: None,
        depth_write_enabled: true,
        unlit: true,
        fog_enabled: false,
    }
}

/// The culling of an effective cull mode: clockwise faces are back faces, counterclockwise
/// faces front faces (an effective mode is never `Unchanged`).
pub open spec fn sp_culling(m: CullMode) -> FaceCulling {
    match m {
        CullMode::CullNone => FaceCulling::Disabled,
        CullMode::Clockwise => FaceCulling::Back,
        _ => FaceCulling::Front,
    }
}

/// The settings after the first `k` attributes of `refs`, each applied over the last: a
/// ColorAttrib sets the base color (its color for a flat color, white otherwise), a
/// CullFaceAttrib the culling of its effective mode, a DepthWriteAttrib whether depth writes
/// are on; other objects, and indices without an object, change nothing.
pub open spec fn sp_material_from(nodes: Seq<NodeView>, refs: Seq<(u32, i32)>, k: nat) -> MaterialSettingsView
    decreases k,
{
    if k == 0 || k > refs.len() {
        default_material()
    } else {
        let m = sp_material_from(nodes, refs, (k - 1) as nat);
        match node_at(nodes, refs[k - 1].0 as int) {
            Some(NodeView::ColorAttrib(c)) => MaterialSettingsView {
                base_color: match c.color_type {
                    ColorType::Flat => BaseColorView::Flat(c.color),
                    _ => BaseColorView::White,
                },
                ..m
            },
            Some(NodeView::CullFaceAttrib(c)) => MaterialSettingsView {
                culling: Some(sp_culling(effective_mode(c))),
                ..m
            },
            Some(NodeView::DepthWriteAttrib(d)) => MaterialSettingsView {
                depth_write_enabled: d.mode == DepthMode::On,
                ..m
            },
            _ => m,
        }
    }
}

/// The material settings of the RenderState at object `render_ref`.
pub open spec fn sp_material(a: AssetView, render_ref: usize) -> Result<MaterialSettingsView, Panda3DError> {
    match node_at(a.nodes, render_ref as int) {
        Some(NodeView::RenderState(s)) => Ok(sp_material_from(a.nodes, s.attrib_refs, s.attrib_refs.len())),
        _ => Err(Panda3DError::WrongNode { node_index: render_ref, node_type: NodeType::RenderState }),
    }
}

/// Attributes that are not CullFaceAttribs leave the culling as it was.
proof fn lemma_culling_kept(nodes: Seq<NodeView>, refs: Seq<(u32, i32)>, k: nat, n: nat)
    requires
        k <= n <= refs.len(),
        forall|j: int| k <= j < n ==> !(#[trigger] node_at(nodes, refs[j].0 as int) matches Some(NodeView::CullFaceAttrib(_))),
    ensures
        sp_material_from(nodes, refs, n).culling == sp_material_from(nodes, refs, k).culling,
    decreases n - k,
{
    if k < n {
        lemma_culling_kept(nodes, refs, k, (n - 1) as nat);
        assert(!(node_at(nodes, refs[n - 1].0 as int) matches Some(NodeView::CullFaceAttrib(_))));
    }
}

/// A material culls as the last CullFaceAttrib of its render state says: no faces for an
/// effective mode of no culling, back faces for clockwise, front faces for counterclockwise.
pub proof fn lemma_material_culling(nodes: Seq<NodeView>, refs: Seq<(u32, i32)>, k: int)
    requires
        0 <= k < refs.len(),
        node_at(nodes, refs[k].0 as int) matches Some(NodeView::CullFaceAttrib(_)),
        forall|j: int| k < j < refs.len() ==> !(#[trigger] node_at(nodes, refs[j].0 as int) matches Some(NodeView::CullFaceAttrib(_))),
    ensures
        match node_at(nodes, refs[k].0 as int) {
            Some(NodeView::CullFaceAttrib(c)) => {
                let m = sp_material_from(nodes, refs, refs.len()).culling;
                &&& (effective_mode(c) == CullMode::CullNone ==> m == Some(FaceCulling::Disabled))
                &&& (effective_mode(c) == CullMode::Clockwise ==> m == Some(FaceCulling::Back))
                &&& (effective_mode(c) == CullMode::CounterClockwise ==> m == Some(FaceCulling::Front))
            },
            _ => false,
        },
{
    lemma_culling_kept(nodes, refs, (k + 1) as nat, refs.len());
}

/// A material whose render state has no CullFaceAttrib keeps its default culling.
pub proof fn lemma_material_default_culling(nodes: Seq<NodeView>, refs: Seq<(u32, i32)>)
    requires
        forall|j: int| 0 <= j < refs.len() ==> !(#[trigger] node_at(nodes, refs[j].0 as int) matches Some(NodeView::CullFaceAttrib(_))),
    ensures
        sp_material_from(nodes, refs, refs.len()).culling is None,
{
    lemma_culling_kept(nodes, refs, 0, refs.len());
}

/// A copy of a list of floats.
fn copy_floats(s: &Vec<FloatBits>) -> (r: Vec<FloatBits>)
    ensures
        r@ == s@,
{
    let mut v: Vec<FloatBits> = Vec::new();
    let mut i: usize = 0;
    while i < s.len()
        invariant
            i <= s@.len(),
            v@ == s@.subrange(0, i as int),
        decreases s@.len() - i,
    {
        v.push(s[i]);
        i = i + 1;
        assert(v@ =~= s@.subrange(0, i as int));
    }
    assert(s@.subrange(0, s@.len() as int) =~= s@);
    v
}

/// The material settings of the RenderState at object `render_ref` (see `sp_material`).
pub fn material_settings(assets: &BinaryAsset, render_ref: usize) -> (r: Result<MaterialSettings, Panda3DError>)
    ensures
        match sp_material(assets@, render_ref) {
            Ok(m) => r matches Ok(t) && t@ == m,
            Err(e) => r matches Err(x) && x == e,
        },
        r matches Ok(m) ==> m.unlit && !m.fog_enabled,
{
    let state = match assets.nodes.get(render_ref) {
        Some(StoredNode::RenderState(s)) => s,
        _ => return Err(Panda3DError::WrongNode { node_index: render_ref, node_type: NodeType::RenderState }),
    };
    let ghost refs = state.attrib_refs@;
    let mut m = MaterialSettings {
        base_color: BaseColor::White,
        culling: None,
        depth_write_enabled: true,
        unlit: true,
        fog_enabled: false,
    };
    let mut k: usize = 0;
    while k < state.attrib_refs.len()
        invariant
            refs == state.attrib_refs@,
            k <= refs.len(),
            m@ == sp_material_from(assets@.nodes, refs, k as nat),
            m.unlit && !m.fog_enabled,
        decreases refs.len() - k,
    {
        let attrib = state.attrib_refs[k].0;
        match assets.nodes.get(attrib as usize) {
            Some(StoredNode::ColorAttrib(c)) => {
                m.base_color = match c.color_type {
                    ColorType::Flat => BaseColor::Flat(copy_floats(&c.color)),
                    _ => BaseColor::White,
                };
            },
            Some(StoredNode::CullFaceAttrib(c)) => {
                m.culling = Some(
                    match c.get_effective_mode() {
                        CullMode::CullNone => FaceCulling::Disabled,
                        CullMode::Clockwise => FaceCulling::Back,
                        _ => FaceCulling::Front,
                    },
                );
            },
            Some(StoredNode::DepthWriteAttrib(d)) => {
                m.depth_write_enabled = d.depth_write_enabled();
            },
            _ => {},
        }
        k = k + 1;
    }
    Ok(m)
}

/// What is done at one part of a character's skeleton.
pub enum JointStep {
    /// A PartBundle, the root of a skeleton: the skeleton entity is named after the PartGroup
    /// `part_group` (the bundle's first child), and the parts `children` of that group are
    /// visited under it.
    Skeleton { part_group: u32, children: Vec<u32> },
    /// A CharacterJoint: a joint entity is made, an animatable entity is made for each ModelNode
    /// of `net_nodes`, and the parts `children` are visited under the joint.
    Joint { net_nodes: Vec<u32>, children: Vec<u32> },
    /// An object of another type: nothing is built.
    Unexpected,
    /// No object has this index: nothing is built.
    Missing,
}

/// The abstract value of a joint step.
pub enum JointStepView {
    Skeleton { part_group: u32, children: Seq<u32> },
    Joint { net_nodes: Seq<u32>, children: Seq<u32> },
    Unexpected,
    Missing,
}

impl View for JointStep {
    type V = JointStepView;

    open spec fn view(&self) -> JointStepView {
        match self {
            JointStep::Skeleton { part_group, children } => JointStepView::Skeleton {
                part_group: *part_group,
                children: children@,
            },
            JointStep::Joint { net_nodes, children } => JointStepView::Joint {
                net_nodes: net_nodes@,
                children: children@,
            },
            JointStep::Unexpected => JointStepView::Unexpected,
            JointStep::Missing => JointStepView::Missing,
        }
    }
}

/// The first of the first `k` references of `refs` that is not a ModelNode, if any.
pub open spec fn first_non_model(nodes: Seq<NodeView>, refs: Seq<u32>, k: nat) -> Option<u32>
    decreases k,
{
    if k == 0 || k > refs.len() {
        None
    } else {
        match first_non_model(nodes, refs, (k - 1) as nat) {
            Some(x) => Some(x),
            None => match node_at(nodes, refs[k - 1] as int) {
                Some(NodeView::ModelNode(_)) => None,
                _ => Some(refs[k - 1]),
            },
        }
    }
}

/// A PartBundle without parts: the one part at which building a skeleton cannot go on.
pub open spec fn partless_bundle(a: AssetView, i: usize) -> bool {
    match node_at(a.nodes, i as int) {
        Some(NodeView::PartBundle(b)) => b.inner.child_refs.len() == 0,
        _ => false,
    }
}

/// What is done at object `i` of a skeleton: a PartBundle's first part must be a PartGroup, and
/// each net node of a CharacterJoint a ModelNode.
pub open spec fn sp_joint_step(a: AssetView, i: usize) -> Result<JointStepView, Panda3DError> {
    match node_at(a.nodes, i as int) {
        None => Ok(JointStepView::Missing),
        Some(NodeView::PartBundle(b)) => {
            let g = b.inner.child_refs[0];
            match node_at(a.nodes, g as int) {
                Some(NodeView::PartGroup(pg)) => Ok(JointStepView::Skeleton { part_group: g, children: pg.child_refs }),
                _ => Err(Panda3DError::WrongNode { node_index: g as usize, node_type: NodeType::PartGroup }),
            }
        },
        Some(NodeView::CharacterJoint(j)) => match first_non_model(a.nodes, j.net_node_refs, j.net_node_refs.len()) {
            Some(x) => Err(Panda3DError::WrongNode { node_index: x as usize, node_type: NodeType::ModelNode }),
            None => Ok(JointStepView::Joint { net_nodes: j.net_node_refs, children: j.inner.inner.inner.child_refs }),
        },
        Some(_) => Ok(JointStepView::Unexpected),
    }
}

/// A copy of a list of references.
fn copy_refs(s: &Vec<u32>) -> (r: Vec<u32>)
    ensures
        r@ == s@,
{
    let mut v: Vec<u32> = Vec::new();
    push_all(&mut v, s);
    assert(v@ =~= s@);
    v
}

/// What is done at object `node_index` of a skeleton (see `sp_joint_step`).
pub fn joint_step(assets: &BinaryAsset, node_index: usize) -> (r: Result<JointStep, Panda3DError>)
    requires
        !partless_bundle(assets@, node_index),
    ensures
        match sp_joint_step(assets@, node_index) {
            Ok(s) => r matches Ok(t) && t@ == s,
            Err(e) => r matches Err(x) && x == e,
        },
{
    match assets.nodes.get(node_index) {
        None => Ok(JointStep::Missing),
        Some(StoredNode::PartBundle(b)) => {
            let g = b.inner.child_refs[0];
            match assets.nodes.get(g as usize) {
                Some(StoredNode::PartGroup(pg)) => Ok(JointStep::Skeleton { part_group: g, children: copy_refs(&pg.child_refs) }),
                _ => Err(Panda3DError::WrongNode { node_index: g as usize, node_type: NodeType::PartGroup }),
            }
        },
        Some(StoredNode::CharacterJoint(j)) => {
            let ghost refs = j.net_node_refs@;
            let mut k: usize = 0;
            while k < j.net_node_refs.len()
                invariant
                    refs == j.net_node_refs@,
                    node_at(assets@.nodes, node_index as int) == Some(NodeView::CharacterJoint(j@)),
                    k <= refs.len(),
                    first_non_model(assets@.nodes, refs, k as nat) is None,
                decreases refs.len() - k,
            {
                let net = j.net_node_refs[k];
                match assets.nodes.get(net as usize) {
                    Some(StoredNode::ModelNode(_)) => {},
                    _ => {
                        proof {
                            assert(refs[k as int] == net);
                            assert(first_non_model(assets@.nodes, refs, (k + 1) as nat) == Some(net));
                            lemma_first_stays(assets@.nodes, refs, (k + 1) as nat, refs.len());
                        }
                        return Err(Panda3DError::WrongNode { node_index: net as usize, node_type: NodeType::ModelNode });
                    },
                }
                k = k + 1;
            }
            Ok(JointStep::Joint { net_nodes: copy_refs(&j.net_node_refs), children: copy_refs(&j.inner.inner.inner.child_refs) })
        },
        Some(_) => Ok(JointStep::Unexpected),
    }
}

/// Once a reference that is not a ModelNode has been found, looking further finds the same.
proof fn lemma_first_stays(nodes: Seq<NodeView>, refs: Seq<u32>, k: nat, m: nat)
    requires
        k <= m <= refs.len(),
        first_non_model(nodes, refs, k) is Some,
    ensures
        first_non_model(nodes, refs, m) == first_non_model(nodes, refs, k),
    decreases m - k,
{
    if k < m {
        lemma_first_stays(nodes, refs, k, (m - 1) as nat);
    }
}

/// A table of a transform channel expanded to `n` frames: an empty table repeats `default`, a
/// table of one value repeats that value, a longer table stays as it is.
pub open spec fn expand(table: Seq<FloatBits>, default: FloatBits, n: nat) -> Seq<FloatBits> {
    if table.len() == 0 {
        Seq::new(n, |i: int| default)
    } else if table.len() == 1 {
        Seq::new(n, |i: int| table[0])
    } else {
        table
    }
}

/// The float 1.0 in single precision.
pub open spec fn one_bits() -> FloatBits {
    FloatBits::Single(0x3F80_0000)
}

/// The float 0.0 in single precision.
pub open spec fn zero_bits() -> FloatBits {
    FloatBits::Single(0)
}

/// The curve of the transform component `c` (the tables `3c`, `3c + 1` and `3c + 2`, each
/// expanded to `n` frames): one triple per frame, or none where all three expand to nothing.
pub open spec fn sp_curve(tables: Seq<Seq<FloatBits>>, c: int, default: FloatBits, n: nat) -> Option<Seq<(FloatBits, FloatBits, FloatBits)>> {
    let x = expand(tables[3 * c], default, n);
    let y = expand(tables[3 * c + 1], default, n);
    let z = expand(tables[3 * c + 2], default, n);
    if x.len() == 0 && y.len() == 0 && z.len() == 0 {
        None
    } else {
        Some(Seq::new(n, |i: int| (x[i], y[i], z[i])))
    }
}

/// The twelve tables of a transform channel, where every table of scale, rotation or
/// translation with more than one value has a value for each of `n` frames.
pub open spec fn tables_fit(t: Seq<Seq<FloatBits>>, n: nat) -> bool {
    &&& t.len() == 12
    &&& forall|k: int|
        0 <= k < 12 && !(3 <= k < 6) && #[trigger] t[k].len() >= 2 ==> t[k].len() >= n
}

/// What is done at one group of an animation.
pub enum AnimStep {
    /// An AnimBundle with two groups: an animation clip of `num_frames` frames at `fps` frames
    /// a second is made; the channels `channels` of its first group (the skeleton) are visited
    /// with it, then its second group `morph` is checked (see `morph_animated`).
    Clip { fps: FloatBits, num_frames: u16, channels: Vec<u32>, morph: u32 },
    /// An AnimBundle without exactly two groups: no animation is made.
    Malformed,
    /// A transform table inside an animation: its scale, heading-pitch-roll and translation
    /// curves (a triple of floats per frame), whether it has a shear, and the channels
    /// `children` visited next.
    Channel {
        scale: Option<Vec<(FloatBits, FloatBits, FloatBits)>>,
        hpr: Option<Vec<(FloatBits, FloatBits, FloatBits)>>,
        translation: Option<Vec<(FloatBits, FloatBits, FloatBits)>>,
        shear: bool,
        children: Vec<u32>,
    },
    /// A transform table outside an animation, or an object of another type: nothing is built.
    Unexpected,
    /// No object has this index: nothing is built.
    Missing,
}

/// The abstract value of an animation step.
pub enum AnimStepView {
    Clip { fps: FloatBits, num_frames: u16, channels: Seq<u32>, morph: u32 },
    Malformed,
    Channel {
        scale: Option<Seq<(FloatBits, FloatBits, FloatBits)>>,
        hpr: Option<Seq<(FloatBits, FloatBits, FloatBits)>>,
        translation: Option<Seq<(FloatBits, FloatBits, FloatBits)>>,
        shear: bool,
        children: Seq<u32>,
    },
    Unexpected,
    Missing,
}

/// The abstract value of a curve.
pub open spec fn curve_view(o: Option<Vec<(FloatBits, FloatBits, FloatBits)>>) -> Option<Seq<(FloatBits, FloatBits, FloatBits)>> {
    match o {
        Some(v) => Some(v@),
        None => None,
    }
}

impl View for AnimStep {
    type V = AnimStepView;

    open spec fn view(&self) -> AnimStepView {
        match self {
            AnimStep::Clip { fps, num_frames, channels, morph } => AnimStepView::Clip {
                fps: *fps,
                num_frames: *num_frames,
                channels: channels@,
                morph: *morph,
            },
            AnimStep::Malformed => AnimStepView::Malformed,
            AnimStep::Channel { scale, hpr, translation, shear, children } => AnimStepView::Channel {
                scale: curve_view(*scale),
                hpr: curve_view(*hpr),
                translation: curve_view(*translation),
                shear: *shear,
                children: children@,
            },
            AnimStep::Unexpected => AnimStepView::Unexpected,
            AnimStep::Missing => AnimStepView::Missing,
        }
    }
}

/// A transform table inside an animation of `frames` frames whose tables do not fit it: the
/// one group at which building an animation cannot go on.
pub open spec fn unfit_channel(a: AssetView, frames: Option<u16>, i: usize) -> bool {
    match (node_at(a.nodes, i as int), frames) {
        (Some(NodeView::AnimChannelMatrixXfmTable(t)), Some(n)) => !tables_fit(t.tables, n as nat),
        _ => false,
    }
}

/// What is done at object `i` of an animation, inside an animation of `frames` frames (none at
/// the top): an AnimBundle's skeleton group must be an AnimGroup; scale defaults to one,
/// rotation and translation to zero.
pub open spec fn sp_anim_step(a: AssetView, frames: Option<u16>, i: usize) -> Result<AnimStepView, Panda3DError> {
    match node_at(a.nodes, i as int) {
        None => Ok(AnimStepView::Missing),
        Some(NodeView::AnimBundle(b)) => if b.inner.child_refs.len() != 2 {
            Ok(AnimStepView::Malformed)
        } else {
            let s = b.inner.child_refs[0];
            match node_at(a.nodes, s as int) {
                Some(NodeView::AnimGroup(g)) => Ok(
                    AnimStepView::Clip {
                        fps: b.fps,
                        num_frames: b.num_frames,
                        channels: g.child_refs,
                        morph: b.inner.child_refs[1],
                    },
                ),
                _ => Err(Panda3DError::WrongNode { node_index: s as usize, node_type: NodeType::AnimGroup }),
            }
        },
        Some(NodeView::AnimChannelMatrixXfmTable(t)) => match frames {
            None => Ok(AnimStepView::Unexpected),
            Some(n) => Ok(
                AnimStepView::Channel {
                    scale: sp_curve(t.tables, 0, one_bits(), n as nat),
                    hpr: sp_curve(t.tables, 2, zero_bits(), n as nat),
                    translation: sp_curve(t.tables, 3, zero_bits(), n as nat),
                    shear: t.tables[3].len() > 0 || t.tables[4].len() > 0 || t.tables[5].len() > 0,
                    children: t.inner.inner.child_refs,
                },
            ),
        },
        Some(_) => Ok(AnimStepView::Unexpected),
    }
}

/// `n` copies of `x`.
fn repeat_float(x: FloatBits, n: usize) -> (r: Vec<FloatBits>)
    ensures
        r@ == Seq::new(n as nat, |i: int| x),
{
    let mut v: Vec<FloatBits> = Vec::new();
    let mut i: usize = 0;
    while i < n
        invariant
            i <= n,
            v@ == Seq::new(i as nat, |j: int| x),
        decreases n - i,
    {
        v.push(x);
        i = i + 1;
        assert(v@ =~= Seq::new(i as nat, |j: int| x));
    }
    v
}

/// A table of a transform channel expanded to `num_frames` frames (see `expand`).
pub fn expand_channel(table: &Vec<FloatBits>, default: FloatBits, num_frames: usize) -> (r: Vec<FloatBits>)
    ensures
        r@ == expand(table@, default, num_frames as nat),
{
    if table.len() == 0 {
        repeat_float(default, num_frames)
    } else if table.len() == 1 {
        repeat_float(table[0], num_frames)
    } else {
        copy_floats(table)
    }
}

/// The curve of transform component `c` (see `sp_curve`).
fn curve(tables: &Vec<Vec<FloatBits>>, c: usize, default: FloatBits, n: usize) -> (r: Option<Vec<(FloatBits, FloatBits, FloatBits)>>)
    requires
        c == 0 || c == 2 || c == 3,
        tables_fit(tables.deep_view(), n as nat),
    ensures
        curve_view(r) == sp_curve(tables.deep_view(), c as int, default, n as nat),
{
    proof {
        assert(tables[3 * c as int].deep_view() =~= tables[3 * c as int]@);
        assert(tables[3 * c + 1].deep_view() =~= tables[3 * c + 1]@);
        assert(tables[3 * c + 2].deep_view() =~= tables[3 * c + 2]@);
    }
    let x = expand_channel(&tables[3 * c], default, n);
    let y = expand_channel(&tables[3 * c + 1], default, n);
    let z = expand_channel(&tables[3 * c + 2], default, n);
    if x.len() == 0 && y.len() == 0 && z.len() == 0 {
        return None;
    }
    assert(x@.len() >= n && y@.len() >= n && z@.len() >= n) by {
        assert(tables.deep_view()[3 * c as int].len() >= 2 ==> tables.deep_view()[3 * c as int].len() >= n);
        assert(tables.deep_view()[3 * c + 1].len() >= 2 ==> tables.deep_view()[3 * c + 1].len() >= n);
        assert(tables.deep_view()[3 * c + 2].len() >= 2 ==> tables.deep_view()[3 * c + 2].len() >= n);
    }
    let mut v: Vec<(FloatBits, FloatBits, FloatBits)> = Vec::new();
    let mut i: usize = 0;
    while i < n
        invariant
            i <= n,
            x@.len() >= n,
            y@.len() >= n,
            z@.len() >= n,
            v@ == Seq::new(i as nat, |j: int| (x@[j], y@[j], z@[j])),
        decreases n - i,
    {
        v.push((x[i], y[i], z[i]));
        i = i + 1;
        assert(v@ =~= Seq::new(i as nat, |j: int| (x@[j], y@[j], z@[j])));
    }
    Some(v)
}

/// What is done at object `node_index` of an animation (see `sp_anim_step`).
pub fn anim_step(assets: &BinaryAsset, frames: Option<u16>, node_index: usize) -> (r: Result<AnimStep, Panda3DError>)
    requires
        !unfit_channel(assets@, frames, node_index),
    ensures
        match sp_anim_step(assets@, frames, node_index) {
            Ok(s) => r matches Ok(t) && t@ == s,
            Err(e) => r matches Err(x) && x == e,
        },
{
    match assets.nodes.get(node_index) {
        None => Ok(AnimStep::Missing),
        Some(StoredNode::AnimBundle(b)) => {
            if b.inner.child_refs.len() != 2 {
                return Ok(AnimStep::Malformed);
            }
            let s = b.inner.child_refs[0];
            match assets.nodes.get(s as usize) {
                Some(StoredNode::AnimGroup(g)) => Ok(
                    AnimStep::Clip {
                        fps: b.fps,
                        num_frames: b.num_frames,
                        channels: copy_refs(&g.child_refs),
                        morph: b.inner.child_refs[1],
                    },
                ),
                _ => Err(Panda3DError::WrongNode { node_index: s as usize, node_type: NodeType::AnimGroup }),
            }
        },
        Some(StoredNode::AnimChannelMatrixXfmTable(t)) => match frames {
            None => Ok(AnimStep::Unexpected),
            Some(n) => {
                let n = n as usize;
                let scale = curve(&t.tables, 0, FloatBits::Single(0x3F80_0000), n);
                let hpr = curve(&t.tables, 2, FloatBits::Single(0), n);
                let translation = curve(&t.tables, 3, FloatBits::Single(0), n);
                proof {
                    assert(t.tables[3].deep_view() =~= t.tables[3]@);
                    assert(t.tables[4].deep_view() =~= t.tables[4]@);
                    assert(t.tables[5].deep_view() =~= t.tables[5]@);
                }
                let shear = t.tables[3].len() > 0 || t.tables[4].len() > 0 || t.tables[5].len() > 0;
                Ok(
                    AnimStep::Channel {
                        scale,
                        hpr,
                        translation,
                        shear,
                        children: copy_refs(&t.inner.inner.child_refs),
                    },
                )
            },
        },
        Some(_) => Ok(AnimStep::Unexpected),
    }
}

/// Whether the morph group `morph` of an animation has morph animations (children); it must be
/// an AnimGroup.
pub fn morph_animated(assets: &BinaryAsset, morph: u32) -> (r: Result<bool, Panda3DError>)
    ensures
        match node_at(assets@.nodes, morph as int) {
            Some(NodeView::AnimGroup(g)) => r == Ok::<bool, Panda3DError>(g.child_refs.len() > 0),
            _ => r == Err::<bool, Panda3DError>(Panda3DError::WrongNode { node_index: morph as usize, node_type: NodeType::AnimGroup }),
        },
{
    match assets.nodes.get(morph as usize) {
        Some(StoredNode::AnimGroup(g)) => Ok(g.child_refs.len() > 0),
        _ => Err(Panda3DError::WrongNode { node_index: morph as usize, node_type: NodeType::AnimGroup }),
    }
}

/// Effects only add up along the first `k` references.
proof fn lemma_effects_from_keep(nodes: Seq<NodeView>, refs: Seq<u32>, start: Effects, k: nat)
    ensures
        start.is_billboard ==> sp_effects_from(nodes, refs, start, k).is_billboard,
        start.is_decal ==> sp_effects_from(nodes, refs, start, k).is_decal,
    decreases k,
{
    if k > 0 && k <= refs.len() {
        lemma_effects_from_keep(nodes, refs, start, (k - 1) as nat);
    }
}

/// A node keeps the effects of its parent: billboard and decal pass down the node tree, and
/// a node's own RenderEffects can only add to them.
pub proof fn lemma_effects_inherited(a: AssetView, parent: Effects, i: usize)
    ensures
        sp_effects(a, Some(parent), i) matches Ok(e) ==> (parent.is_billboard ==> e.is_billboard) && (
        parent.is_decal ==> e.is_decal),
{
    match render_effects_at(a.nodes, i as int) {
        Some(refs) => lemma_effects_from_keep(a.nodes, refs, parent, refs.len()),
        None => {},
    }
}

/// Every curve of a transform table inside an animation has one key per frame of the
/// animation, and an animation with frames gives each table all three curves.
pub proof fn lemma_curve_frames(tables: Seq<Seq<FloatBits>>, c: int, default: FloatBits, n: nat)
    requires
        c == 0 || c == 2 || c == 3,
        tables_fit(tables, n),
    ensures
        sp_curve(tables, c, default, n) matches Some(s) ==> s.len() == n,
        n > 0 ==> sp_curve(tables, c, default, n) is Some,
{
}

} // verus!
