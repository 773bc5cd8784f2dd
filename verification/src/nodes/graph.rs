//! The references from each object to others, as drawn in a graph of the scene.

use vstd::prelude::*;

use crate::nodes::anim::MovingPartBaseView;
use crate::nodes::panda_node::{PandaNode, PandaNodeView};
use crate::nodes::storage::{NodeView, StoredNode};

verus! {

/// The first component of each pair.
pub open spec fn firsts(s: Seq<(u32, i32)>) -> Seq<u32> {
    Seq::new(s.len(), |i: int| s[i].0)
}

/// Both components of each pair, in order.
pub open spec fn flatten_pairs(s: Seq<(u32, u32)>) -> Seq<u32> {
    Seq::new(2 * s.len(), |i: int| if i % 2 == 0 { s[i / 2].0 } else { s[i / 2].1 })
}

/// The value, if there is one.
pub open spec fn opt(o: Option<u32>) -> Seq<u32> {
    match o {
        Some(x) => seq![x],
        None => Seq::empty(),
    }
}

/// The references of a PandaNode: its state, transform and effects, then its children and its
/// stashed children (parents are not drawn).
pub open spec fn panda_links(p: PandaNodeView) -> Seq<u32> {
    seq![p.state_ref, p.transform_ref, p.effects_ref] + firsts(p.child_refs) + firsts(p.stashed_refs)
}

/// The references of a moving part: its forced channel, if any.
pub open spec fn moving_links(m: MovingPartBaseView) -> Seq<u32> {
    opt(m.forced_channel_ref)
}

/// The references an object links to, in the order the graph lists them.
pub open spec fn node_links(v: NodeView) -> Seq<u32> {
    match v {
        NodeView::AnimBundle(b) => b.inner.child_refs,
        NodeView::AnimBundleNode(n) => panda_links(n.inner).push(n.anim_bundle_ref),
        NodeView::AnimChannelMatrixXfmTable(t) => t.inner.inner.child_refs,
        NodeView::AnimGroup(g) => g.child_refs,
        NodeView::BillboardEffect(b) => b.look_at.path_refs,
        NodeView::Character(c) => panda_links(c.inner.inner),
        NodeView::CharacterJoint(j) => moving_links(j.inner.inner) + opt(j.character_ref) + j.net_node_refs
            + j.local_node_refs,
        NodeView::CharacterJointEffect(e) => seq![e.character_ref],
        NodeView::CollisionNode(n) => panda_links(n.inner) + n.solid_refs,
        NodeView::Geom(g) => seq![g.data_ref] + g.primitive_refs,
        NodeView::GeomNode(n) => panda_links(n.inner) + flatten_pairs(n.geom_refs),
        NodeView::GeomPrimitive(p) => opt(p.vertices_ref),
        NodeView::GeomVertexArrayData(d) => seq![d.array_format_ref],
        NodeView::GeomVertexFormat(f) => f.array_refs,
        NodeView::JointVertexTransform(t) => seq![t.joint_ref],
        NodeView::LODNode(n) => panda_links(n.inner),
        NodeView::ModelNode(n) => panda_links(n.inner),
        NodeView::PandaNode(n) => panda_links(n),
        NodeView::PartBundle(b) => opt(b.anim_preload_ref),
        NodeView::RenderState(s) => firsts(s.attrib_refs),
        _ => Seq::empty(),
    }
}

/// Appends every value of `s`.
pub(crate) fn push_all(v: &mut Vec<u32>, s: &Vec<u32>)
    ensures
        final(v)@ == old(v)@ + s@,
{
    let mut i: usize = 0;
    while i < s.len()
        invariant
            i <= s@.len(),
            v@ == old(v)@ + s@.subrange(0, i as int),
        decreases s@.len() - i,
    {
        v.push(s[i]);
        i = i + 1;
        assert(old(v)@ + s@.subrange(0, i as int) =~= (old(v)@ + s@.subrange(0, i - 1)).push(s@[i - 1]));
    }
    assert(s@.subrange(0, s@.len() as int) =~= s@);
}

/// Appends the first component of each pair of `s`.
pub(crate) fn push_firsts(v: &mut Vec<u32>, s: &Vec<(u32, i32)>)
    ensures
        final(v)@ == old(v)@ + firsts(s@),
{
    let mut i: usize = 0;
    while i < s.len()
        invariant
            i <= s@.len(),
            v@ == old(v)@ + firsts(s@.subrange(0, i as int)),
        decreases s@.len() - i,
    {
        v.push(s[i].0);
        i = i + 1;
        assert(old(v)@ + firsts(s@.subrange(0, i as int)) =~= (old(v)@ + firsts(s@.subrange(0, i - 1))).push(s@[i - 1].0));
    }
    assert(s@.subrange(0, s@.len() as int) =~= s@);
}

/// Appends both components of each pair of `s`.
fn push_pairs(v: &mut Vec<u32>, s: &Vec<(u32, u32)>)
    ensures
        final(v)@ == old(v)@ + flatten_pairs(s@),
{
    let mut i: usize = 0;
    while i < s.len()
        invariant
            i <= s@.len(),
            v@ == old(v)@ + flatten_pairs(s@.subrange(0, i as int)),
        decreases s@.len() - i,
    {
        v.push(s[i].0);
        v.push(s[i].1);
        i = i + 1;
        assert(old(v)@ + flatten_pairs(s@.subrange(0, i as int)) =~= (old(v)@ + flatten_pairs(s@.subrange(0, i - 1))).push(s@[i - 1].0).push(s@[i - 1].1));
    }
    assert(s@.subrange(0, s@.len() as int) =~= s@);
}

/// Appends the value, if there is one.
fn push_opt(v: &mut Vec<u32>, o: Option<u32>)
    ensures
        final(v)@ == old(v)@ + opt(o),
{
    match o {
        Some(x) => {
            v.push(x);
            assert(old(v)@.push(x) =~= old(v)@ + seq![x]);
        },
        None => {
            assert(old(v)@ + Seq::<u32>::empty() =~= old(v)@);
        },
    }
}

/// Appends the references of a PandaNode (see `panda_links`).
fn push_panda(v: &mut Vec<u32>, p: &PandaNode)
    ensures
        final(v)@ == old(v)@ + panda_links(p@),
{
    v.push(p.state_ref);
    v.push(p.transform_ref);
    v.push(p.effects_ref);
    push_firsts(v, &p.child_refs);
    push_firsts(v, &p.stashed_refs);
    assert(v@ =~= old(v)@ + panda_links(p@));
}

/// The references the object links to (see `node_links`).
pub fn connections(node: &StoredNode) -> (r: Vec<u32>)
    ensures
        r@ == node_links(node@),
{
    let mut v: Vec<u32> = Vec::new();
    match node {
        StoredNode::AnimBundle(b) => push_all(&mut v, &b.inner.child_refs),
        StoredNode::AnimBundleNode(n) => {
            push_panda(&mut v, &n.inner);
            v.push(n.anim_bundle_ref);
        },
        StoredNode::AnimChannelMatrixXfmTable(t) => push_all(&mut v, &t.inner.inner.child_refs),
        StoredNode::AnimGroup(g) => push_all(&mut v, &g.child_refs),
        StoredNode::BillboardEffect(b) => push_all(&mut v, &b.look_at.path_refs),
        StoredNode::Character(c) => push_panda(&mut v, &c.inner.inner),
        StoredNode::CharacterJoint(j) => {
            push_opt(&mut v, j.inner.inner.forced_channel_ref);
            push_opt(&mut v, j.character_ref);
            push_all(&mut v, &j.net_node_refs);
            push_all(&mut v, &j.local_node_refs);
        },
        StoredNode::CharacterJointEffect(e) => v.push(e.character_ref),
        StoredNode::CollisionNode(n) => {
            push_panda(&mut v, &n.inner);
            push_all(&mut v, &n.solid_refs);
        },
        StoredNode::Geom(g) => {
            v.push(g.data_ref);
            push_all(&mut v, &g.primitive_refs);
        },
        StoredNode::GeomNode(n) => {
            push_panda(&mut v, &n.inner);
            push_pairs(&mut v, &n.geom_refs);
        },
        StoredNode::GeomPrimitive(p) => push_opt(&mut v, p.vertices_ref),
        StoredNode::GeomVertexArrayData(d) => v.push(d.array_format_ref),
        StoredNode::GeomVertexFormat(f) => push_all(&mut v, &f.array_refs),
        StoredNode::JointVertexTransform(t) => v.push(t.joint_ref),
        StoredNode::LODNode(n) => push_panda(&mut v, &n.inner),
        StoredNode::ModelNode(n) => push_panda(&mut v, &n.inner),
        StoredNode::PandaNode(n) => push_panda(&mut v, n),
        StoredNode::PartBundle(b) => push_opt(&mut v, b.anim_preload_ref),
        StoredNode::RenderState(s) => push_firsts(&mut v, &s.attrib_refs),
        _ => {},
    }
    assert(v@ =~= node_links(node@));
    v
}

} // verus!
