//! The walk of a loaded scene graph: from the root, through the node tree, into each
//! character's skeleton and each animation, recording the scene it describes as a list of
//! items (entities with their parents, meshes with their materials, skeleton joints,
//! animation clips and their channels). A renderer creates its own objects at the same points
//! and in the same order. Each visit takes one level of a depth limit, so a cyclic scene graph
//! ends the walk with `TooDeep`.

use vstd::prelude::*;

use crate::bam::{AssetView, BinaryAsset};
use crate::datagram::FloatBits;
use crate::nodes::storage::{NodeView, StoredNode};
use crate::scene::{
    geom_at, geom_mesh, node_at, sp_mesh, Effects, MeshData, MeshView, NodeType, Panda3DError,
};
use crate::scene_graph::{
    anim_step, bundleless_character, childless_root, entity_effects, joint_step, material_settings, node_step,
    partless_bundle, scene_root, sp_anim_step, sp_joint_step, sp_material, sp_node_step, sp_scene_root,
    tables_fit, unfit_channel, AnimStep, AnimStepView, JointStep, JointStepView, MaterialSettings,
    MaterialSettingsView, NodeStep, NodeStepView,
};

verus! {

/// One object of the described scene.
pub enum SceneItem {
    /// An entity for object `node`, under the entity item `parent`, with `effects`.
    Entity { node: usize, parent: Option<usize>, effects: Effects },
    /// A mesh for Geom `geom` on the entity item `entity`, with its material.
    Mesh { entity: usize, geom: usize, mesh: MeshData, material: MaterialSettings },
    /// A joint, or a skeleton root, for object `node` under the item `parent`.
    Joint { node: usize, parent: usize },
    /// An animation clip of `num_frames` frames from the AnimBundle `bundle`.
    Clip { bundle: usize, num_frames: u16 },
    /// A channel, from transform table `node`, of the clip before it.
    Channel { node: usize },
}

/// The abstract value of a scene item.
pub enum SceneItemView {
    Entity { node: usize, parent: Option<usize>, effects: Effects },
    Mesh { entity: usize, geom: usize, mesh: MeshView, material: MaterialSettingsView },
    Joint { node: usize, parent: usize },
    Clip { bundle: usize, num_frames: u16 },
    Channel { node: usize },
}

impl View for SceneItem {
    type V = SceneItemView;

    open spec fn view(&self) -> SceneItemView {
        match self {
            SceneItem::Entity { node, parent, effects } => SceneItemView::Entity {
                node: *node,
                parent: *parent,
                effects: *effects,
            },
            SceneItem::Mesh { entity, geom, mesh, material } => SceneItemView::Mesh {
                entity: *entity,
                geom: *geom,
                mesh: mesh@,
                material: material@,
            },
            SceneItem::Joint { node, parent } => SceneItemView::Joint { node: *node, parent: *parent },
            SceneItem::Clip { bundle, num_frames } => SceneItemView::Clip { bundle: *bundle, num_frames: *num_frames },
            SceneItem::Channel { node } => SceneItemView::Channel { node: *node },
        }
    }
}

/// The abstract values of a list of items.
pub open spec fn items_view(s: Seq<SceneItem>) -> Seq<SceneItemView> {
    s.map_values(|i: SceneItem| i@)
}

/// The outcome of a part of the walk: the items so far, or an error; `None` where the walk
/// reaches an object at which it cannot go on (see `bundleless_character`,
/// `partless_bundle`, `unfit_channel`, a joint outside a skeleton, a Geom that gives no mesh).
pub type Walk = Option<Result<Seq<SceneItemView>, Panda3DError>>;

/// The mesh data of the Geom at `g` (see `geom_mesh`).
pub open spec fn sp_geom_mesh(a: AssetView, g: usize) -> Result<MeshView, Panda3DError> {
    match geom_at(a.nodes, g as int) {
        None => Err(Panda3DError::WrongNode { node_index: g, node_type: NodeType::Geom }),
        Some(gv) => if gv.primitive_refs.len() == 0 {
            Err(Panda3DError::UnexpectedData { node_index: g })
        } else {
            sp_mesh(a, gv)
        },
    }
}

/// The meshes of the (Geom, RenderState) pairs `geoms[k..]` on the entity item `entity`: the
/// Geom must be one, then the material is made, then the mesh.
pub open spec fn sp_meshes(a: AssetView, items: Seq<SceneItemView>, entity: usize, geoms: Seq<(u32, u32)>, k: nat) -> Walk
    decreases geoms.len() - k,
{
    if k >= geoms.len() {
        Some(Ok(items))
    } else {
        let g = geoms[k as int].0 as usize;
        let st = geoms[k as int].1 as usize;
        match geom_at(a.nodes, g as int) {
            None => Some(Err(Panda3DError::WrongNode { node_index: g, node_type: NodeType::Geom })),
            Some(_) => match sp_material(a, st) {
                Err(e) => Some(Err(e)),
                Ok(m) => match sp_geom_mesh(a, g) {
                    Err(_) => None,
                    Ok(mesh) => sp_meshes(
                        a,
                        items.push(SceneItemView::Mesh { entity, geom: g, mesh, material: m }),
                        entity,
                        geoms,
                        k + 1,
                    ),
                },
            },
        }
    }
}

/// The walk of a skeleton from object `node`, under the item `parent`; `in_skeleton` once
/// below the skeleton's root.
pub open spec fn sp_visit_joint(a: AssetView, items: Seq<SceneItemView>, parent: usize, in_skeleton: bool, node: usize, depth: nat) -> Walk
    decreases depth, 0int,
{
    if depth == 0 {
        Some(Err(Panda3DError::TooDeep { node_index: node }))
    } else if partless_bundle(a, node) || (!in_skeleton && node_at(a.nodes, node as int) matches Some(
        NodeView::CharacterJoint(_),
    )) {
        None
    } else {
        match sp_joint_step(a, node) {
            Err(e) => Some(Err(e)),
            Ok(JointStepView::Skeleton { children, .. }) => sp_joint_children(
                a,
                items.push(SceneItemView::Joint { node, parent }),
                items.len() as usize,
                children,
                0,
                (depth - 1) as nat,
            ),
            Ok(JointStepView::Joint { children, .. }) => sp_joint_children(
                a,
                items.push(SceneItemView::Joint { node, parent }),
                items.len() as usize,
                children,
                0,
                (depth - 1) as nat,
            ),
            Ok(_) => Some(Ok(items)),
        }
    }
}

/// The walk of the parts `children[k..]` under the joint item `joint`.
pub open spec fn sp_joint_children(a: AssetView, items: Seq<SceneItemView>, joint: usize, children: Seq<u32>, k: nat, depth: nat) -> Walk
    decreases depth, children.len() - k,
{
    if k >= children.len() {
        Some(Ok(items))
    } else {
        match sp_visit_joint(a, items, joint, true, children[k as int] as usize, depth) {
            Some(Ok(i2)) => sp_joint_children(a, i2, joint, children, k + 1, depth),
            other => other,
        }
    }
}

/// The walk of an animation from object `node`, inside an animation of `frames` frames (none
/// at the top). A clip's morph group is checked after its channels.
pub open spec fn sp_visit_anim(a: AssetView, items: Seq<SceneItemView>, frames: Option<u16>, node: usize, depth: nat) -> Walk
    decreases depth, 0int,
{
    if depth == 0 {
        Some(Err(Panda3DError::TooDeep { node_index: node }))
    } else if unfit_channel(a, frames, node) {
        None
    } else {
        match sp_anim_step(a, frames, node) {
            Err(e) => Some(Err(e)),
            Ok(AnimStepView::Clip { num_frames, channels, morph, .. }) => match sp_anim_children(
                a,
                items.push(SceneItemView::Clip { bundle: node, num_frames }),
                Some(num_frames),
                channels,
                0,
                (depth - 1) as nat,
            ) {
                Some(Ok(i2)) => match node_at(a.nodes, morph as int) {
                    Some(NodeView::AnimGroup(_)) => Some(Ok(i2)),
                    _ => Some(Err(Panda3DError::WrongNode { node_index: morph as usize, node_type: NodeType::AnimGroup })),
                },
                other => other,
            },
            Ok(AnimStepView::Channel { children, .. }) => sp_anim_children(
                a,
                items.push(SceneItemView::Channel { node }),
                frames,
                children,
                0,
                (depth - 1) as nat,
            ),
            Ok(_) => Some(Ok(items)),
        }
    }
}

/// The walk of the animation groups `children[k..]`.
pub open spec fn sp_anim_children(a: AssetView, items: Seq<SceneItemView>, frames: Option<u16>, children: Seq<u32>, k: nat, depth: nat) -> Walk
    decreases depth, children.len() - k,
{
    if k >= children.len() {
        Some(Ok(items))
    } else {
        match sp_visit_anim(a, items, frames, children[k as int] as usize, depth) {
            Some(Ok(i2)) => sp_anim_children(a, i2, frames, children, k + 1, depth),
            other => other,
        }
    }
}

/// The walk of the node tree from object `node`, under the entity item `parent` with effects
/// `effects`: an entity, then its meshes or its skeleton, then its children; or an animation.
pub open spec fn sp_visit_node(a: AssetView, items: Seq<SceneItemView>, parent: Option<usize>, effects: Option<Effects>, node: usize, depth: nat) -> Walk
    decreases depth, 0int,
{
    if depth == 0 {
        Some(Err(Panda3DError::TooDeep { node_index: node }))
    } else if bundleless_character(a, effects, node) {
        None
    } else {
        match sp_node_step(a, effects, node) {
            Err(e) => Some(Err(e)),
            Ok(NodeStepView::Spawn { effects: e, geoms, children }) => {
                let entity = items.len() as usize;
                match sp_meshes(a, items.push(SceneItemView::Entity { node, parent, effects: e }), entity, geoms, 0) {
                    Some(Ok(i2)) => sp_node_children(a, i2, entity, e, children, 0, (depth - 1) as nat),
                    other => other,
                }
            },
            Ok(NodeStepView::Character { effects: e, bundle, children }) => {
                let entity = items.len() as usize;
                match sp_visit_joint(
                    a,
                    items.push(SceneItemView::Entity { node, parent, effects: e }),
                    entity,
                    false,
                    bundle as usize,
                    (depth - 1) as nat,
                ) {
                    Some(Ok(i2)) => sp_node_children(a, i2, entity, e, children, 0, (depth - 1) as nat),
                    other => other,
                }
            },
            Ok(NodeStepView::Animation { bundle }) => sp_visit_anim(a, items, None, bundle as usize, (depth - 1) as nat),
            Ok(_) => Some(Ok(items)),
        }
    }
}

/// The walk of the nodes `children[k..]` under the entity item `entity` with effects `effects`.
pub open spec fn sp_node_children(a: AssetView, items: Seq<SceneItemView>, entity: usize, effects: Effects, children: Seq<u32>, k: nat, depth: nat) -> Walk
    decreases depth, children.len() - k,
{
    if k >= children.len() {
        Some(Ok(items))
    } else {
        match sp_visit_node(a, items, Some(entity), Some(effects), children[k as int] as usize, depth) {
            Some(Ok(i2)) => sp_node_children(a, i2, entity, effects, children, k + 1, depth),
            other => other,
        }
    }
}

/// The whole walk, from the first child of the root, with at most `depth` nested visits.
pub open spec fn sp_describe(a: AssetView, depth: nat) -> Walk {
    if childless_root(a) {
        None
    } else {
        match sp_scene_root(a) {
            Err(e) => Some(Err(e)),
            Ok(r) => sp_visit_node(a, Seq::empty(), None, None, r as usize, depth),
        }
    }
}

/// What a part of the walk leaves: the items of an `Ok` outcome, the error of an `Err`, and
/// `None` where the walk cannot go on.
pub open spec fn walked(w: Walk, r: Option<Result<(), Panda3DError>>, items: Seq<SceneItem>) -> bool {
    match w {
        Some(Ok(s)) => r == Some(Ok::<(), Panda3DError>(())) && items_view(items) == s,
        Some(Err(e)) => r == Some(Err::<(), Panda3DError>(e)),
        None => r is None,
    }
}

/// Appends an item.
fn push_item(items: &mut Vec<SceneItem>, item: SceneItem)
    ensures
        items_view(final(items)@) == items_view(old(items)@).push(item@),
        final(items)@.len() == old(items)@.len() + 1,
{
    items.push(item);
    assert(items_view(items@) =~= items_view(old(items)@).push(item@));
}

/// Whether the tables of a transform channel fit an animation of `n` frames (see `tables_fit`).
fn tables_fit_frames(tables: &Vec<Vec<FloatBits>>, n: usize) -> (b: bool)
    ensures
        b == tables_fit(tables.deep_view(), n as nat),
{
    if tables.len() != 12 {
        return false;
    }
    let mut k: usize = 0;
    while k < 12
        invariant
            tables@.len() == 12,
            k <= 12,
            forall|j: int|
                0 <= j < k && !(3 <= j < 6) && #[trigger] tables.deep_view()[j].len() >= 2 ==> tables.deep_view()[j].len() >= n,
        decreases 12 - k,
    {
        assert(tables[k as int].deep_view() =~= tables[k as int]@);
        let len = tables[k].len();
        if !(3 <= k && k < 6) && len >= 2 && len < n {
            assert(tables.deep_view()[k as int].len() == len);
            return false;
        }
        k = k + 1;
    }
    true
}

/// The meshes of `geoms` on the entity item `entity` (see `sp_meshes`).
#[verifier::spinoff_prover]
#[verifier::rlimit(40)]
fn visit_meshes(assets: &BinaryAsset, items: &mut Vec<SceneItem>, entity: usize, geoms: &Vec<(u32, u32)>) -> (r: Option<Result<(), Panda3DError>>)
    ensures
        walked(sp_meshes(assets@, items_view(old(items)@), entity, geoms@, 0), r, final(items)@),
{
    let ghost w = sp_meshes(assets@, items_view(items@), entity, geoms@, 0);
    let mut k: usize = 0;
    while k < geoms.len()
        invariant
            k <= geoms@.len(),
            w == sp_meshes(assets@, items_view(old(items)@), entity, geoms@, 0),
            w == sp_meshes(assets@, items_view(items@), entity, geoms@, k as nat),
        decreases geoms@.len() - k,
    {
        let (g, st) = geoms[k];
        match assets.nodes.get(g as usize) {
            Some(StoredNode::Geom(_)) => {},
            _ => return Some(Err(Panda3DError::WrongNode { node_index: g as usize, node_type: NodeType::Geom })),
        }
        let material = match material_settings(assets, st as usize) {
            Ok(m) => m,
            Err(e) => return Some(Err(e)),
        };
        let mesh = match geom_mesh(assets, g as usize) {
            Ok(m) => m,
            Err(_) => return None,
        };
        push_item(items, SceneItem::Mesh { entity, geom: g as usize, mesh, material });
        k = k + 1;
    }
    Some(Ok(()))
}

/// The walk of a skeleton (see `sp_visit_joint`).
fn visit_joint(assets: &BinaryAsset, items: &mut Vec<SceneItem>, parent: usize, in_skeleton: bool, node: usize, depth: u32) -> (r: Option<Result<(), Panda3DError>>)
    ensures
        walked(sp_visit_joint(assets@, items_view(old(items)@), parent, in_skeleton, node, depth as nat), r, final(items)@),
    decreases depth,
{
    if depth == 0 {
        return Some(Err(Panda3DError::TooDeep { node_index: node }));
    }
    match assets.nodes.get(node) {
        Some(StoredNode::PartBundle(b)) => {
            if b.inner.child_refs.len() == 0 {
                return None;
            }
        },
        Some(StoredNode::CharacterJoint(_)) => {
            if !in_skeleton {
                return None;
            }
        },
        _ => {},
    }
    let children = match joint_step(assets, node) {
        Err(e) => return Some(Err(e)),
        Ok(JointStep::Skeleton { children, .. }) => children,
        Ok(JointStep::Joint { children, .. }) => children,
        Ok(_) => return Some(Ok(())),
    };
    let joint = items.len();
    push_item(items, SceneItem::Joint { node, parent });
    let ghost w = sp_joint_children(assets@, items_view(items@), joint, children@, 0, (depth - 1) as nat);
    let mut k: usize = 0;
    while k < children.len()
        invariant
            k <= children@.len(),
            depth > 0,
            w == sp_visit_joint(assets@, items_view(old(items)@), parent, in_skeleton, node, depth as nat),
            w == sp_joint_children(assets@, items_view(items@), joint, children@, k as nat, (depth - 1) as nat),
        decreases children@.len() - k,
    {
        match visit_joint(assets, items, joint, true, children[k] as usize, depth - 1) {
            Some(Ok(())) => {},
            other => return other,
        }
        k = k + 1;
    }
    Some(Ok(()))
}

/// The walk of an animation (see `sp_visit_anim`).
fn visit_anim(assets: &BinaryAsset, items: &mut Vec<SceneItem>, frames: Option<u16>, node: usize, depth: u32) -> (r: Option<Result<(), Panda3DError>>)
    ensures
        walked(sp_visit_anim(assets@, items_view(old(items)@), frames, node, depth as nat), r, final(items)@),
    decreases depth,
{
    if depth == 0 {
        return Some(Err(Panda3DError::TooDeep { node_index: node }));
    }
    match (assets.nodes.get(node), frames) {
        (Some(StoredNode::AnimChannelMatrixXfmTable(t)), Some(n)) => {
            if !tables_fit_frames(&t.tables, n as usize) {
                return None;
            }
        },
        _ => {},
    }
    let (children, inner_frames, morph) = match anim_step(assets, frames, node) {
        Err(e) => return Some(Err(e)),
        Ok(AnimStep::Clip { num_frames, channels, morph, .. }) => {
            push_item(items, SceneItem::Clip { bundle: node, num_frames });
            (channels, Some(num_frames), Some(morph))
        },
        Ok(AnimStep::Channel { children, .. }) => {
            push_item(items, SceneItem::Channel { node });
            (children, frames, None)
        },
        Ok(_) => return Some(Ok(())),
    };
    let ghost w = sp_anim_children(assets@, items_view(items@), inner_frames, children@, 0, (depth - 1) as nat);
    let mut k: usize = 0;
    while k < children.len()
        invariant
            k <= children@.len(),
            depth > 0,
            w == sp_anim_children(assets@, items_view(items@), inner_frames, children@, k as nat, (depth - 1) as nat),
            sp_visit_anim(assets@, items_view(old(items)@), frames, node, depth as nat) == match morph {
                Some(m) => match w {
                    Some(Ok(i2)) => match node_at(assets@.nodes, m as int) {
                        Some(NodeView::AnimGroup(_)) => Some(Ok(i2)),
                        _ => Some(Err(Panda3DError::WrongNode { node_index: m as usize, node_type: NodeType::AnimGroup })),
                    },
                    other => other,
                },
                None => w,
            },
        decreases children@.len() - k,
    {
        match visit_anim(assets, items, inner_frames, children[k] as usize, depth - 1) {
            Some(Ok(())) => {},
            other => return other,
        }
        k = k + 1;
    }
    match morph {
        Some(m) => match assets.nodes.get(m as usize) {
            Some(StoredNode::AnimGroup(_)) => Some(Ok(())),
            _ => Some(Err(Panda3DError::WrongNode { node_index: m as usize, node_type: NodeType::AnimGroup })),
        },
        None => Some(Ok(())),
    }
}

/// The walk of the node tree (see `sp_visit_node`).
#[verifier::spinoff_prover]
#[verifier::rlimit(40)]
fn visit_node(assets: &BinaryAsset, items: &mut Vec<SceneItem>, parent: Option<usize>, effects: Option<Effects>, node: usize, depth: u32) -> (r: Option<Result<(), Panda3DError>>)
    ensures
        walked(sp_visit_node(assets@, items_view(old(items)@), parent, effects, node, depth as nat), r, final(items)@),
    decreases depth,
{
    if depth == 0 {
        return Some(Err(Panda3DError::TooDeep { node_index: node }));
    }
    match assets.nodes.get(node) {
        Some(StoredNode::Character(c)) => {
            if c.inner.bundle_refs.len() == 0 {
                let spawned = match effects {
                    Some(e) => entity_effects(assets, Some(&e), &c.inner.inner),
                    None => entity_effects(assets, None, &c.inner.inner),
                };
                if spawned.is_ok() {
                    return None;
                }
            }
        },
        _ => {},
    }
    let step = match effects {
        Some(e) => node_step(assets, Some(&e), node),
        None => node_step(assets, None, node),
    };
    let ghost w0 = sp_visit_node(assets@, items_view(items@), parent, effects, node, depth as nat);
    let (entity, entity_effects, children) = match step {
        Err(e) => return Some(Err(e)),
        Ok(NodeStep::Spawn { effects: e, geoms, children }) => {
            let entity = items.len();
            push_item(items, SceneItem::Entity { node, parent, effects: e });
            match visit_meshes(assets, items, entity, &geoms) {
                Some(Ok(())) => {},
                other => return other,
            }
            (entity, e, children)
        },
        Ok(NodeStep::Character { effects: e, bundle, children }) => {
            let entity = items.len();
            push_item(items, SceneItem::Entity { node, parent, effects: e });
            match visit_joint(assets, items, entity, false, bundle as usize, depth - 1) {
                Some(Ok(())) => {},
                other => return other,
            }
            (entity, e, children)
        },
        Ok(NodeStep::Animation { bundle }) => return visit_anim(assets, items, None, bundle as usize, depth - 1),
        Ok(_) => return Some(Ok(())),
    };
    let mut k: usize = 0;
    while k < children.len()
        invariant
            k <= children@.len(),
            depth > 0,
            w0 == sp_visit_node(assets@, items_view(old(items)@), parent, effects, node, depth as nat),
            w0 == sp_node_children(assets@, items_view(items@), entity, entity_effects, children@, k as nat, (depth - 1) as nat),
        decreases children@.len() - k,
    {
        match visit_node(assets, items, Some(entity), Some(entity_effects), children[k] as usize, depth - 1) {
            Some(Ok(())) => {},
            other => return other,
        }
        k = k + 1;
    }
    Some(Ok(()))
}

/// Walks the scene graph from the first child of the root, with at most `depth` nested visits,
/// and lists the scene it describes (see `sp_describe`); `None` where the walk reaches an
/// object at which the scene cannot be built.
pub fn describe(assets: &BinaryAsset, depth: u32) -> (r: Option<Result<Vec<SceneItem>, Panda3DError>>)
    ensures
        match sp_describe(assets@, depth as nat) {
            Some(Ok(s)) => r matches Some(Ok(v)) && items_view(v@) == s,
            Some(Err(e)) => r matches Some(Err(x)) && x == e,
            None => r is None,
        },
{
    match assets.nodes.get(0) {
        Some(StoredNode::ModelNode(n)) => {
            if n.inner.child_refs.len() == 0 {
                return None;
            }
        },
        _ => {},
    }
    let start = match scene_root(assets) {
        Ok(s) => s,
        Err(e) => return Some(Err(e)),
    };
    let mut items: Vec<SceneItem> = Vec::new();
    assert(items_view(items@) =~= Seq::<SceneItemView>::empty());
    match visit_node(assets, &mut items, None, None, start as usize, depth) {
        Some(Ok(())) => Some(Ok(items)),
        Some(Err(e)) => Some(Err(e)),
        None => None,
    }
}

} // verus!
