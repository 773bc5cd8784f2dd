//! PandaNode, the base of every node of the scene graph, and the nodes that extend it.

use vstd::prelude::*;

use crate::bam::{
    lemma_repeat_err, lift, outcome, ref_item, ref_sort_item, sp_ref, sp_repeat, AssetView,
    BinaryAsset, Error, PR,
};
use crate::datagram::{dg_float, dg_floats, dg_string, dg_u16, dg_u32, dg_u8, Datagram, DgView, FloatBits};
use crate::nodes::enums::{BoundsType, PreserveTransform};
use crate::tables::{tag_entries, TagMap};

verus! {

/// The draw masks that a single stored mask stands for (files before BAM 6.2): zero hides the
/// node, all ones shows it, and any other value, its top bit cleared, is the show mask, with
/// its complement the control mask. Returns the control mask and the show mask.
pub open spec fn split_draw_mask(m: u32) -> (u32, u32) {
    if m == 0 {
        (0x8000_0000u32, 0x7FFF_FFFFu32)
    } else if m == 0xFFFF_FFFF {
        (0u32, 0xFFFF_FFFFu32)
    } else {
        (!(m & 0x7FFF_FFFF), m & 0x7FFF_FFFF)
    }
}

fn split_draw_mask_exec(m: u32) -> (r: (u32, u32))
    ensures
        r == split_draw_mask(m),
{
    if m == 0 {
        (0x8000_0000u32, 0x7FFF_FFFFu32)
    } else if m == 0xFFFF_FFFFu32 {
        (0u32, 0xFFFF_FFFFu32)
    } else {
        let shown = m & 0x7FFF_FFFFu32;
        (!shown, shown)
    }
}

/// Reads `n` tags, each a key string then a value string, into `t`; a repeated key keeps the
/// later value.
pub open spec fn sp_tags(t: Map<Seq<char>, Seq<char>>, d: DgView, n: nat) -> Result<
    (Map<Seq<char>, Seq<char>>, DgView),
    Error,
>
    decreases n,
{
    if n == 0 {
        Ok((t, d))
    } else {
        match sp_tags(t, d, (n - 1) as nat) {
            Err(e) => Err(e),
            Ok((t1, d1)) => match dg_string(d1) {
                Err(e) => Err(Error::DataError(e)),
                Ok((k, d2)) => match dg_string(d2) {
                    Err(e) => Err(Error::DataError(e)),
                    Ok((v, d3)) => Ok((t1.insert(k, v), d3)),
                },
            },
        }
    }
}

proof fn lemma_tags_err(t: Map<Seq<char>, Seq<char>>, d: DgView, k: nat, n: nat)
    requires
        k <= n,
        sp_tags(t, d, k) is Err,
    ensures
        sp_tags(t, d, n) == sp_tags(t, d, k),
    decreases n - k,
{
    if k < n {
        lemma_tags_err(t, d, k, (n - 1) as nat);
    }
}

/// The abstract value of a PandaNode.
pub struct PandaNodeView {
    pub name: Seq<char>,
    pub state_ref: u32,
    pub transform_ref: u32,
    pub effects_ref: u32,
    pub draw_control_mask: u32,
    pub draw_show_mask: u32,
    pub into_collide_mask: u32,
    pub bounds_type: BoundsType,
    pub tags: Map<Seq<char>, Seq<char>>,
    pub parent_refs: Seq<u32>,
    pub child_refs: Seq<(u32, i32)>,
    pub stashed_refs: Seq<(u32, i32)>,
}

/// A node of the scene graph.
pub struct PandaNode {
    pub name: String,
    /// Reference to the associated RenderState
    pub state_ref: u32,
    /// Reference to the associated TransformState
    pub transform_ref: u32,
    /// Reference to the associated RenderEffects
    pub effects_ref: u32,
    pub draw_control_mask: u32,
    pub draw_show_mask: u32,
    pub into_collide_mask: u32,
    pub bounds_type: BoundsType,
    pub tag_data: TagMap,
    /// Reference to all parent nodes (may be derived from PandaNode)
    pub parent_refs: Vec<u32>,
    /// Reference to all children nodes (may be derived from PandaNode), with their sort values
    pub child_refs: Vec<(u32, i32)>,
    pub stashed_refs: Vec<(u32, i32)>,
}

impl View for PandaNode {
    type V = PandaNodeView;

    open spec fn view(&self) -> PandaNodeView {
        PandaNodeView {
            name: self.name@,
            state_ref: self.state_ref,
            transform_ref: self.transform_ref,
            effects_ref: self.effects_ref,
            draw_control_mask: self.draw_control_mask,
            draw_show_mask: self.draw_show_mask,
            into_collide_mask: self.into_collide_mask,
            bounds_type: self.bounds_type,
            tags: tag_entries(self.tag_data),
            parent_refs: self.parent_refs@,
            child_refs: self.child_refs@,
            stashed_refs: self.stashed_refs@,
        }
    }
}

/// The name and the three state references of a PandaNode.
pub open spec fn sp_node_head(a: AssetView, d: DgView) -> PR<(Seq<char>, u32, u32, u32)> {
    match lift(dg_string(d), a) {
        Err(e) => Err(e),
        Ok((name, a, d)) => match sp_ref(a, d) {
            Err(e) => Err(e),
            Ok((state, a, d)) => match sp_ref(a, d) {
                Err(e) => Err(e),
                Ok((transform, a, d)) => match sp_ref(a, d) {
                    Err(e) => Err(e),
                    Ok((effects, a, d)) => Ok(((name, state, transform, effects), a, d)),
                },
            },
        },
    }
}

/// The draw control and show masks, the collide mask and the bounds type of a PandaNode:
/// before BAM 6.2 a single draw mask (see `split_draw_mask`), and from 6.19 on a bounds type
/// byte.
pub open spec fn sp_node_masks(a: AssetView, d: DgView) -> PR<(u32, u32, u32, BoundsType)> {
    let minor = a.header.version.minor;
    let masks: PR<(u32, u32)> = if minor >= 2 {
        match lift(dg_u32(d), a) {
            Err(e) => Err(e),
            Ok((c, a, d)) => match lift(dg_u32(d), a) {
                Err(e) => Err(e),
                Ok((s, a, d)) => Ok(((c, s), a, d)),
            },
        }
    } else {
        match lift(dg_u32(d), a) {
            Err(e) => Err(e),
            Ok((m, a, d)) => Ok((split_draw_mask(m), a, d)),
        }
    };
    match masks {
        Err(e) => Err(e),
        Ok(((control, show), a, d)) => match lift(dg_u32(d), a) {
            Err(e) => Err(e),
            Ok((collide, a, d)) => if minor >= 19 {
                match lift(dg_u8(d), a) {
                    Err(e) => Err(e),
                    Ok((b, a, d)) => Ok(((control, show, collide, BoundsType::from_byte(b)), a, d)),
                }
            } else {
                Ok(((control, show, collide, BoundsType::Default), a, d))
            },
        },
    }
}

/// The tags of a PandaNode: a 32-bit count, then the pairs (see `sp_tags`).
pub open spec fn sp_node_tags(a: AssetView, d: DgView) -> PR<Map<Seq<char>, Seq<char>>> {
    match lift(dg_u32(d), a) {
        Err(e) => Err(e),
        Ok((n, a, d)) => match sp_tags(Map::empty(), d, n as nat) {
            Err(e) => Err(e),
            Ok((t, d)) => Ok((t, a, d)),
        },
    }
}

/// The parents, children and stashed children of a PandaNode, each list a 16-bit count
/// followed by its entries; children come with sort values.
pub open spec fn sp_node_links(a: AssetView, d: DgView) -> PR<(Seq<u32>, Seq<(u32, i32)>, Seq<(u32, i32)>)> {
    match lift(dg_u16(d), a) {
        Err(e) => Err(e),
        Ok((np, a, d)) => match sp_repeat(ref_item(), a, d, np as nat) {
            Err(e) => Err(e),
            Ok((parents, a, d)) => match lift(dg_u16(d), a) {
                Err(e) => Err(e),
                Ok((nc, a, d)) => match sp_repeat(ref_sort_item(), a, d, nc as nat) {
                    Err(e) => Err(e),
                    Ok((children, a, d)) => match lift(dg_u16(d), a) {
                        Err(e) => Err(e),
                        Ok((ns, a, d)) => match sp_repeat(ref_sort_item(), a, d, ns as nat) {
                            Err(e) => Err(e),
                            Ok((stashed, a, d)) => Ok(((parents, children, stashed), a, d)),
                        },
                    },
                },
            },
        },
    }
}

/// Reads a PandaNode.
pub open spec fn sp_panda_node(a: AssetView, d: DgView) -> PR<PandaNodeView> {
    match sp_node_head(a, d) {
        Err(e) => Err(e),
        Ok(((name, state_ref, transform_ref, effects_ref), a, d)) => match sp_node_masks(a, d) {
            Err(e) => Err(e),
            Ok(((draw_control_mask, draw_show_mask, into_collide_mask, bounds_type), a, d)) => match sp_node_tags(a, d) {
                Err(e) => Err(e),
                Ok((tags, a, d)) => match sp_node_links(a, d) {
                    Err(e) => Err(e),
                    Ok(((parent_refs, child_refs, stashed_refs), a, d)) => Ok(
                        (
                            PandaNodeView {
                                name,
                                state_ref,
                                transform_ref,
                                effects_ref,
                                draw_control_mask,
                                draw_show_mask,
                                into_collide_mask,
                                bounds_type,
                                tags,
                                parent_refs,
                                child_refs,
                                stashed_refs,
                            },
                            a,
                            d,
                        ),
                    ),
                },
            },
        },
    }
}

fn read_node_head(loader: &mut BinaryAsset, data: &mut Datagram) -> (r: Result<(String, u32, u32, u32), Error>)
    requires
        old(data).wf(),
    ensures
        final(loader).header == old(loader).header,
        final(data).wf(),
        match sp_node_head(old(loader)@, old(data)@) {
            Ok((v, a, d)) => r matches Ok(x) && x.0@ == v.0 && x.1 == v.1 && x.2 == v.2 && x.3 == v.3
                && final(loader)@ == a && final(data)@ == d,
            Err(e) => r == Err::<(String, u32, u32, u32), Error>(e),
        },
{
    let name = match data.read_string() {
        Ok(s) => s,
        Err(e) => return Err(Error::DataError(e)),
    };
    let state_ref = match loader.read_ref(data) {
        Ok(p) => p,
        Err(e) => return Err(e),
    };
    let transform_ref = match loader.read_ref(data) {
        Ok(p) => p,
        Err(e) => return Err(e),
    };
    let effects_ref = match loader.read_ref(data) {
        Ok(p) => p,
        Err(e) => return Err(e),
    };
    Ok((name, state_ref, transform_ref, effects_ref))
}

fn read_node_masks(loader: &mut BinaryAsset, data: &mut Datagram) -> (r: Result<(u32, u32, u32, BoundsType), Error>)
    requires
        old(data).wf(),
    ensures
        final(loader).header == old(loader).header,
        final(data).wf(),
        outcome(r, sp_node_masks(old(loader)@, old(data)@), final(loader)@, final(data)@),
{
    let (draw_control_mask, draw_show_mask) = if loader.get_minor_version() >= 2 {
        let c = match data.read_u32() {
            Ok(v) => v,
            Err(e) => return Err(Error::DataError(e)),
        };
        let s = match data.read_u32() {
            Ok(v) => v,
            Err(e) => return Err(Error::DataError(e)),
        };
        (c, s)
    } else {
        match data.read_u32() {
            Ok(m) => split_draw_mask_exec(m),
            Err(e) => return Err(Error::DataError(e)),
        }
    };
    let into_collide_mask = match data.read_u32() {
        Ok(v) => v,
        Err(e) => return Err(Error::DataError(e)),
    };
    let bounds_type = if loader.get_minor_version() >= 19 {
        match data.read_u8() {
            Ok(b) => BoundsType::from_u8(b),
            Err(e) => return Err(Error::DataError(e)),
        }
    } else {
        BoundsType::Default
    };
    Ok((draw_control_mask, draw_show_mask, into_collide_mask, bounds_type))
}

fn read_node_tags(loader: &mut BinaryAsset, data: &mut Datagram) -> (r: Result<TagMap, Error>)
    requires
        old(data).wf(),
    ensures
        final(loader).header == old(loader).header,
        final(data).wf(),
        match sp_node_tags(old(loader)@, old(data)@) {
            Ok((v, a, d)) => r matches Ok(t) && tag_entries(t) == v && final(loader)@ == a
                && final(data)@ == d,
            Err(e) => r == Err::<TagMap, Error>(e),
        },
{
    let num_tags = match data.read_u32() {
        Ok(v) => v,
        Err(e) => return Err(Error::DataError(e)),
    };
    let ghost d0 = data@;
    let mut tag_data = TagMap::new();
    assert(tag_entries(tag_data) =~= Map::<Seq<char>, Seq<char>>::empty());
    let mut i: u32 = 0;
    while i < num_tags
        invariant
            data.wf(),
            loader@ == old(loader)@,
            i <= num_tags,
            match sp_node_tags(old(loader)@, old(data)@) {
                Ok((v, a, d)) => sp_tags(Map::empty(), d0, num_tags as nat) == Ok::<(Map<Seq<char>, Seq<char>>, DgView), Error>((v, d)),
                Err(e) => sp_tags(Map::empty(), d0, num_tags as nat) == Err::<(Map<Seq<char>, Seq<char>>, DgView), Error>(e),
            },
            sp_tags(Map::empty(), d0, i as nat) == Ok::<(Map<Seq<char>, Seq<char>>, DgView), Error>((tag_entries(tag_data), data@)),
        decreases num_tags - i,
    {
        let key = match data.read_string() {
            Ok(s) => s,
            Err(e) => {
                proof {
                    lemma_tags_err(Map::empty(), d0, (i + 1) as nat, num_tags as nat);
                }
                return Err(Error::DataError(e));
            },
        };
        let value = match data.read_string() {
            Ok(s) => s,
            Err(e) => {
                proof {
                    lemma_tags_err(Map::empty(), d0, (i + 1) as nat, num_tags as nat);
                }
                return Err(Error::DataError(e));
            },
        };
        tag_data.insert(key, value);
        i = i + 1;
    }
    Ok(tag_data)
}

fn read_node_links(loader: &mut BinaryAsset, data: &mut Datagram) -> (r: Result<(Vec<u32>, Vec<(u32, i32)>, Vec<(u32, i32)>), Error>)
    requires
        old(data).wf(),
    ensures
        final(loader).header == old(loader).header,
        final(data).wf(),
        match sp_node_links(old(loader)@, old(data)@) {
            Ok((v, a, d)) => r matches Ok(x) && x.0@ == v.0 && x.1@ == v.1 && x.2@ == v.2
                && final(loader)@ == a && final(data)@ == d,
            Err(e) => r == Err::<(Vec<u32>, Vec<(u32, i32)>, Vec<(u32, i32)>), Error>(e),
        },
{
    let num_parents = match data.read_u16() {
        Ok(v) => v,
        Err(e) => return Err(Error::DataError(e)),
    };
    let parent_refs = match loader.read_refs(data, num_parents as u32) {
        Ok(v) => v,
        Err(e) => return Err(e),
    };
    let num_children = match data.read_u16() {
        Ok(v) => v,
        Err(e) => return Err(Error::DataError(e)),
    };
    let child_refs = match loader.read_ref_sorts(data, num_children as u32) {
        Ok(v) => v,
        Err(e) => return Err(e),
    };
    let num_stashed = match data.read_u16() {
        Ok(v) => v,
        Err(e) => return Err(Error::DataError(e)),
    };
    let stashed_refs = match loader.read_ref_sorts(data, num_stashed as u32) {
        Ok(v) => v,
        Err(e) => return Err(e),
    };
    Ok((parent_refs, child_refs, stashed_refs))
}

impl PandaNode {
    /// Reads a PandaNode (see `sp_panda_node`).
    pub fn create(loader: &mut BinaryAsset, data: &mut Datagram) -> (r: Result<Self, Error>)
        requires
            old(data).wf(),
        ensures
            final(loader).header == old(loader).header,
            final(data).wf(),
            outcome(r, sp_panda_node(old(loader)@, old(data)@), final(loader)@, final(data)@),
    {
        let (name, state_ref, transform_ref, effects_ref) = match read_node_head(loader, data) {
            Ok(h) => h,
            Err(e) => return Err(e),
        };
        let (draw_control_mask, draw_show_mask, into_collide_mask, bounds_type) = match read_node_masks(loader, data) {
            Ok(m) => m,
            Err(e) => return Err(e),
        };
        let tag_data = match read_node_tags(loader, data) {
            Ok(t) => t,
            Err(e) => return Err(e),
        };
        let (parent_refs, child_refs, stashed_refs) = match read_node_links(loader, data) {
            Ok(l) => l,
            Err(e) => return Err(e),
        };
        Ok(PandaNode {
            name,
            state_ref,
            transform_ref,
            effects_ref,
            draw_control_mask,
            draw_show_mask,
            into_collide_mask,
            bounds_type,
            tag_data,
            parent_refs,
            child_refs,
            stashed_refs,
        })
    }

    /// The tags of the node, each key with its value, in no particular order.
    pub fn tags(&self) -> (r: Vec<(String, String)>)
        ensures
            r@.len() == self@.tags.len(),
            forall|i: int|
                #![trigger r@[i]]
                0 <= i < r@.len() ==> self@.tags.contains_key(r@[i].0@) && self@.tags[r@[i].0@]
                    == r@[i].1@,
            forall|i: int, j: int| 0 <= i < j < r@.len() ==> r@[i].0@ != r@[j].0@,
    {
        self.tag_data.entries()
    }
}

/// The abstract value of a ModelNode.
pub struct ModelNodeView {
    pub inner: PandaNodeView,
    pub transform: PreserveTransform,
    pub attributes: u16,
}

/// A node that a flatten operation treats with care.
pub struct ModelNode {
    /// ModelNode is a superclass of a PandaNode, so we include its data here
    pub inner: PandaNode,
    /// Whether to preserve the PandaNode transform data.
    pub transform: PreserveTransform,
    /// Attributes to protect from flattening.
    pub attributes: u16,
}

impl View for ModelNode {
    type V = ModelNodeView;

    open spec fn view(&self) -> ModelNodeView {
        ModelNodeView { inner: self.inner@, transform: self.transform, attributes: self.attributes }
    }
}

/// Reads a ModelNode: a PandaNode, the preserve-transform byte and the protected attributes.
pub open spec fn sp_model_node(a: AssetView, d: DgView) -> PR<ModelNodeView> {
    match sp_panda_node(a, d) {
        Err(e) => Err(e),
        Ok((inner, a, d)) => match lift(dg_u8(d), a) {
            Err(e) => Err(e),
            Ok((t, a, d)) => match lift(dg_u16(d), a) {
                Err(e) => Err(e),
                Ok((attributes, a, d)) => Ok(
                    (ModelNodeView { inner, transform: PreserveTransform::from_byte(t), attributes }, a, d),
                ),
            },
        },
    }
}

impl ModelNode {
    pub fn create(loader: &mut BinaryAsset, data: &mut Datagram) -> (r: Result<Self, Error>)
        requires
            old(data).wf(),
        ensures
            final(loader).header == old(loader).header,
            final(data).wf(),
            outcome(r, sp_model_node(old(loader)@, old(data)@), final(loader)@, final(data)@),
    {
        let inner = match PandaNode::create(loader, data) {
            Ok(n) => n,
            Err(e) => return Err(e),
        };
        let transform = match data.read_u8() {
            Ok(b) => PreserveTransform::from_u8(b),
            Err(e) => return Err(Error::DataError(e)),
        };
        let attributes = match data.read_u16() {
            Ok(v) => v,
            Err(e) => return Err(Error::DataError(e)),
        };
        Ok(ModelNode { inner, transform, attributes })
    }
}

/// Reads a Geom reference and the reference of its RenderState.
pub open spec fn sp_ref_pair(a: AssetView, d: DgView) -> PR<(u32, u32)> {
    match sp_ref(a, d) {
        Err(e) => Err(e),
        Ok((g, a, d)) => match sp_ref(a, d) {
            Err(e) => Err(e),
            Ok((s, a, d)) => Ok(((g, s), a, d)),
        },
    }
}

/// `sp_ref_pair` as a list item.
pub open spec fn ref_pair_item() -> spec_fn(AssetView, DgView) -> PR<(u32, u32)> {
    |a: AssetView, d: DgView| sp_ref_pair(a, d)
}

/// The abstract value of a GeomNode.
pub struct GeomNodeView {
    pub inner: PandaNodeView,
    pub geom_refs: Seq<(u32, u32)>,
}

/// A node holding renderable geometry.
pub struct GeomNode {
    pub inner: PandaNode,
    /// Each piece of Geom data and its associated RenderState
    pub geom_refs: Vec<(u32, u32)>,
}

impl View for GeomNode {
    type V = GeomNodeView;

    open spec fn view(&self) -> GeomNodeView {
        GeomNodeView { inner: self.inner@, geom_refs: self.geom_refs@ }
    }
}

/// Reads a GeomNode: a PandaNode, then a 16-bit count of Geom and RenderState reference pairs.
pub open spec fn sp_geom_node(a: AssetView, d: DgView) -> PR<GeomNodeView> {
    match sp_panda_node(a, d) {
        Err(e) => Err(e),
        Ok((inner, a, d)) => match lift(dg_u16(d), a) {
            Err(e) => Err(e),
            Ok((n, a, d)) => match sp_repeat(ref_pair_item(), a, d, n as nat) {
                Err(e) => Err(e),
                Ok((geom_refs, a, d)) => Ok((GeomNodeView { inner, geom_refs }, a, d)),
            },
        },
    }
}

impl GeomNode {
    pub fn create(loader: &mut BinaryAsset, data: &mut Datagram) -> (r: Result<Self, Error>)
        requires
            old(data).wf(),
        ensures
            final(loader).header == old(loader).header,
            final(data).wf(),
            outcome(r, sp_geom_node(old(loader)@, old(data)@), final(loader)@, final(data)@),
    {
        let inner = match PandaNode::create(loader, data) {
            Ok(n) => n,
            Err(e) => return Err(e),
        };
        let num_geoms = match data.read_u16() {
            Ok(v) => v,
            Err(e) => return Err(Error::DataError(e)),
        };
        let ghost a0 = loader@;
        let ghost d0 = data@;
        let mut geom_refs: Vec<(u32, u32)> = Vec::new();
        let mut i: u16 = 0;
        while i < num_geoms
            invariant
                loader.header == old(loader).header,
                data.wf(),
                i <= num_geoms,
                sp_geom_node(old(loader)@, old(data)@) == match sp_repeat(ref_pair_item(), a0, d0, num_geoms as nat) {
                    Err(e) => Err(e),
                    Ok((geom_refs, a, d)) => Ok((GeomNodeView { inner: inner@, geom_refs }, a, d)),
                },
                sp_repeat(ref_pair_item(), a0, d0, i as nat) == Ok::<(Seq<(u32, u32)>, AssetView, DgView), Error>((geom_refs@, loader@, data@)),
            decreases num_geoms - i,
        {
            let geom_ref = match loader.read_ref(data) {
                Ok(p) => p,
                Err(e) => {
                    proof {
                        lemma_repeat_err(ref_pair_item(), a0, d0, (i + 1) as nat, num_geoms as nat);
                    }
                    return Err(e);
                },
            };
            let render_ref = match loader.read_ref(data) {
                Ok(p) => p,
                Err(e) => {
                    proof {
                        lemma_repeat_err(ref_pair_item(), a0, d0, (i + 1) as nat, num_geoms as nat);
                    }
                    return Err(e);
                },
            };
            geom_refs.push((geom_ref, render_ref));
            i = i + 1;
        }
        Ok(GeomNode { inner, geom_refs })
    }
}

/// The abstract value of a CollisionNode.
pub struct CollisionNodeView {
    pub inner: PandaNodeView,
    pub solid_refs: Seq<u32>,
    pub collide_mask: u32,
}

/// A node holding collision solids.
pub struct CollisionNode {
    pub inner: PandaNode,
    /// References to all associated CollisionSolid data
    pub solid_refs: Vec<u32>,
    pub collide_mask: u32,
}

impl View for CollisionNode {
    type V = CollisionNodeView;

    open spec fn view(&self) -> CollisionNodeView {
        CollisionNodeView { inner: self.inner@, solid_refs: self.solid_refs@, collide_mask: self.collide_mask }
    }
}

/// The number of solids of a CollisionNode: a 16-bit count, where 0xFFFF announces a 32-bit
/// count.
pub open spec fn sp_solid_count(a: AssetView, d: DgView) -> PR<u32> {
    match lift(dg_u16(d), a) {
        Err(e) => Err(e),
        Ok((n, a, d)) => if n == 0xFFFF {
            lift(dg_u32(d), a)
        } else {
            Ok((n as u32, a, d))
        },
    }
}

/// Reads a CollisionNode: a PandaNode, the solids and the collide mask.
pub open spec fn sp_collision_node(a: AssetView, d: DgView) -> PR<CollisionNodeView> {
    match sp_panda_node(a, d) {
        Err(e) => Err(e),
        Ok((inner, a, d)) => match sp_solid_count(a, d) {
            Err(e) => Err(e),
            Ok((n, a, d)) => match sp_repeat(ref_item(), a, d, n as nat) {
                Err(e) => Err(e),
                Ok((solid_refs, a, d)) => match lift(dg_u32(d), a) {
                    Err(e) => Err(e),
                    Ok((collide_mask, a, d)) => Ok((CollisionNodeView { inner, solid_refs, collide_mask }, a, d)),
                },
            },
        },
    }
}

impl CollisionNode {
    pub fn create(loader: &mut BinaryAsset, data: &mut Datagram) -> (r: Result<Self, Error>)
        requires
            old(data).wf(),
        ensures
            final(loader).header == old(loader).header,
            final(data).wf(),
            outcome(r, sp_collision_node(old(loader)@, old(data)@), final(loader)@, final(data)@),
    {
        let inner = match PandaNode::create(loader, data) {
            Ok(n) => n,
            Err(e) => return Err(e),
        };
        let num_solids: u32 = match data.read_u16() {
            Ok(0xFFFF) => match data.read_u32() {
                Ok(v) => v,
                Err(e) => return Err(Error::DataError(e)),
            },
            Ok(n) => n as u32,
            Err(e) => return Err(Error::DataError(e)),
        };
        let solid_refs = match loader.read_refs(data, num_solids) {
            Ok(v) => v,
            Err(e) => return Err(e),
        };
        let collide_mask = match data.read_u32() {
            Ok(v) => v,
            Err(e) => return Err(Error::DataError(e)),
        };
        Ok(CollisionNode { inner, solid_refs, collide_mask })
    }
}

/// The distances between which one level of detail shows.
#[derive(Clone, Copy, Debug, PartialEq, Eq, Structural)]
pub struct Switch {
    pub start: FloatBits,
    pub end: FloatBits,
}

impl View for Switch {
    type V = Switch;

    open spec fn view(&self) -> Switch {
        *self
    }
}

/// Reads a Switch: the start and end distances.
pub open spec fn sp_switch(a: AssetView, d: DgView) -> PR<Switch> {
    match lift(dg_float(d), a) {
        Err(e) => Err(e),
        Ok((start, a, d)) => match lift(dg_float(d), a) {
            Err(e) => Err(e),
            Ok((end, a, d)) => Ok((Switch { start, end }, a, d)),
        },
    }
}

/// `sp_switch` as a list item.
pub open spec fn switch_item() -> spec_fn(AssetView, DgView) -> PR<Switch> {
    |a: AssetView, d: DgView| sp_switch(a, d)
}

impl Switch {
    pub fn create(loader: &mut BinaryAsset, data: &mut Datagram) -> (r: Result<Self, Error>)
        requires
            old(data).wf(),
        ensures
            final(loader).header == old(loader).header,
            final(data).wf(),
            outcome(r, sp_switch(old(loader)@, old(data)@), final(loader)@, final(data)@),
    {
        let start = match data.read_float() {
            Ok(v) => v,
            Err(e) => return Err(Error::DataError(e)),
        };
        let end = match data.read_float() {
            Ok(v) => v,
            Err(e) => return Err(Error::DataError(e)),
        };
        Ok(Switch { start, end })
    }
}

/// The level-of-detail scale a LODNode starts with: 1.0, as single-precision bits.
pub open spec fn unit_scale() -> FloatBits {
    FloatBits::Single(0x3F80_0000)
}

/// The abstract value of a LODNode.
pub struct LODNodeView {
    pub inner: PandaNodeView,
    pub center: Seq<FloatBits>,
    pub switch_vector: Seq<Switch>,
    pub lod_scale: FloatBits,
}

/// A node that shows one of its children depending on the distance to the camera.
pub struct LODNode {
    pub inner: PandaNode,
    pub center: Vec<FloatBits>,
    pub switch_vector: Vec<Switch>,
    pub lod_scale: FloatBits,
}

impl View for LODNode {
    type V = LODNodeView;

    open spec fn view(&self) -> LODNodeView {
        LODNodeView {
            inner: self.inner@,
            center: self.center@,
            switch_vector: self.switch_vector@,
            lod_scale: self.lod_scale,
        }
    }
}

/// Reads a LODNode: a PandaNode, the center (three floats) and a 16-bit count of switches.
pub open spec fn sp_lod_node(a: AssetView, d: DgView) -> PR<LODNodeView> {
    match sp_panda_node(a, d) {
        Err(e) => Err(e),
        Ok((inner, a, d)) => match lift(dg_floats(d, 3), a) {
            Err(e) => Err(e),
            Ok((center, a, d)) => match lift(dg_u16(d), a) {
                Err(e) => Err(e),
                Ok((n, a, d)) => match sp_repeat(switch_item(), a, d, n as nat) {
                    Err(e) => Err(e),
                    Ok((switch_vector, a, d)) => Ok(
                        (LODNodeView { inner, center, switch_vector, lod_scale: unit_scale() }, a, d),
                    ),
                },
            },
        },
    }
}

impl LODNode {
    pub fn create(loader: &mut BinaryAsset, data: &mut Datagram) -> (r: Result<Self, Error>)
        requires
            old(data).wf(),
        ensures
            final(loader).header == old(loader).header,
            final(data).wf(),
            outcome(r, sp_lod_node(old(loader)@, old(data)@), final(loader)@, final(data)@),
    {
        let inner = match PandaNode::create(loader, data) {
            Ok(n) => n,
            Err(e) => return Err(e),
        };
        let center = match data.read_floats(3) {
            Ok(v) => v,
            Err(e) => return Err(Error::DataError(e)),
        };
        let num_switches = match data.read_u16() {
            Ok(v) => v,
            Err(e) => return Err(Error::DataError(e)),
        };
        let ghost a0 = loader@;
        let ghost d0 = data@;
        let mut switch_vector: Vec<Switch> = Vec::new();
        let mut i: u16 = 0;
        while i < num_switches
            invariant
                loader.header == old(loader).header,
                data.wf(),
                i <= num_switches,
                sp_lod_node(old(loader)@, old(data)@) == match sp_repeat(switch_item(), a0, d0, num_switches as nat) {
                    Err(e) => Err(e),
                    Ok((switch_vector, a, d)) => Ok((LODNodeView { inner: inner@, center: center@, switch_vector, lod_scale: unit_scale() }, a, d)),
                },
                sp_repeat(switch_item(), a0, d0, i as nat) == Ok::<(Seq<Switch>, AssetView, DgView), Error>((switch_vector@, loader@, data@)),
            decreases num_switches - i,
        {
            match Switch::create(loader, data) {
                Ok(s) => {
                    switch_vector.push(s);
                },
                Err(e) => {
                    proof {
                        lemma_repeat_err(switch_item(), a0, d0, (i + 1) as nat, num_switches as nat);
                    }
                    return Err(e);
                },
            }
            i = i + 1;
        }
        Ok(LODNode { inner, center, switch_vector, lod_scale: FloatBits::Single(0x3F80_0000) })
    }
}

/// The abstract value of a PartBundleNode.
pub struct PartBundleNodeView {
    pub inner: PandaNodeView,
    pub bundle_refs: Seq<u32>,
}

/// A node holding PartBundles.
pub struct PartBundleNode {
    pub inner: PandaNode,
    pub bundle_refs: Vec<u32>,
}

impl View for PartBundleNode {
    type V = PartBundleNodeView;

    open spec fn view(&self) -> PartBundleNodeView {
        PartBundleNodeView { inner: self.inner@, bundle_refs: self.bundle_refs@ }
    }
}

/// Reads a PartBundleNode: a PandaNode, then the bundles, a 16-bit count of them from BAM 6.5
/// on and one before.
pub open spec fn sp_part_bundle_node(a: AssetView, d: DgView) -> PR<PartBundleNodeView> {
    match sp_panda_node(a, d) {
        Err(e) => Err(e),
        Ok((inner, a, d)) => {
            let count: PR<u16> = if a.header.version.minor >= 5 {
                lift(dg_u16(d), a)
            } else {
                Ok((1u16, a, d))
            };
            match count {
                Err(e) => Err(e),
                Ok((n, a, d)) => match sp_repeat(ref_item(), a, d, n as nat) {
                    Err(e) => Err(e),
                    Ok((bundle_refs, a, d)) => Ok((PartBundleNodeView { inner, bundle_refs }, a, d)),
                },
            }
        },
    }
}

impl PartBundleNode {
    pub fn create(loader: &mut BinaryAsset, data: &mut Datagram) -> (r: Result<Self, Error>)
        requires
            old(data).wf(),
        ensures
            final(loader).header == old(loader).header,
            final(data).wf(),
            outcome(r, sp_part_bundle_node(old(loader)@, old(data)@), final(loader)@, final(data)@),
    {
        let inner = match PandaNode::create(loader, data) {
            Ok(n) => n,
            Err(e) => return Err(e),
        };
        let num_bundles: u16 = if loader.get_minor_version() >= 5 {
            match data.read_u16() {
                Ok(v) => v,
                Err(e) => return Err(Error::DataError(e)),
            }
        } else {
            1
        };
        let bundle_refs = match loader.read_refs(data, num_bundles as u32) {
            Ok(v) => v,
            Err(e) => return Err(e),
        };
        Ok(PartBundleNode { inner, bundle_refs })
    }
}

/// The abstract value of a Character.
pub struct CharacterView {
    pub inner: PartBundleNodeView,
    pub temp_part_refs: Seq<u32>,
}

/// An animated model.
pub struct Character {
    pub inner: PartBundleNode,
    /// For compatibility only, no longer used and handled by PartBundleNode
    pub temp_part_refs: Vec<u32>,
}

impl View for Character {
    type V = CharacterView;

    open spec fn view(&self) -> CharacterView {
        CharacterView { inner: self.inner@, temp_part_refs: self.temp_part_refs@ }
    }
}

/// Reads a Character: a PartBundleNode, then a 16-bit count of part references.
pub open spec fn sp_character(a: AssetView, d: DgView) -> PR<CharacterView> {
    match sp_part_bundle_node(a, d) {
        Err(e) => Err(e),
        Ok((inner, a, d)) => match lift(dg_u16(d), a) {
            Err(e) => Err(e),
            Ok((n, a, d)) => match sp_repeat(ref_item(), a, d, n as nat) {
                Err(e) => Err(e),
                Ok((temp_part_refs, a, d)) => Ok((CharacterView { inner, temp_part_refs }, a, d)),
            },
        },
    }
}

impl Character {
    pub fn create(loader: &mut BinaryAsset, data: &mut Datagram) -> (r: Result<Self, Error>)
        requires
            old(data).wf(),
        ensures
            final(loader).header == old(loader).header,
            final(data).wf(),
            outcome(r, sp_character(old(loader)@, old(data)@), final(loader)@, final(data)@),
    {
        let inner = match PartBundleNode::create(loader, data) {
            Ok(n) => n,
            Err(e) => return Err(e),
        };
        let temp_num_parts = match data.read_u16() {
            Ok(v) => v,
            Err(e) => return Err(Error::DataError(e)),
        };
        let temp_part_refs = match loader.read_refs(data, temp_num_parts as u32) {
            Ok(v) => v,
            Err(e) => return Err(e),
        };
        Ok(Character { inner, temp_part_refs })
    }
}

/// The abstract value of an AnimBundleNode.
pub struct AnimBundleNodeView {
    pub inner: PandaNodeView,
    pub anim_bundle_ref: u32,
}

/// A node holding an AnimBundle.
pub struct AnimBundleNode {
    pub inner: PandaNode,
    pub anim_bundle_ref: u32,
}

impl View for AnimBundleNode {
    type V = AnimBundleNodeView;

    open spec fn view(&self) -> AnimBundleNodeView {
        AnimBundleNodeView { inner: self.inner@, anim_bundle_ref: self.anim_bundle_ref }
    }
}

/// Reads an AnimBundleNode: a PandaNode and the reference of its AnimBundle.
pub open spec fn sp_anim_bundle_node(a: AssetView, d: DgView) -> PR<AnimBundleNodeView> {
    match sp_panda_node(a, d) {
        Err(e) => Err(e),
        Ok((inner, a, d)) => match sp_ref(a, d) {
            Err(e) => Err(e),
            Ok((anim_bundle_ref, a, d)) => Ok((AnimBundleNodeView { inner, anim_bundle_ref }, a, d)),
        },
    }
}

impl AnimBundleNode {
    pub fn create(loader: &mut BinaryAsset, data: &mut Datagram) -> (r: Result<Self, Error>)
        requires
            old(data).wf(),
        ensures
            final(loader).header == old(loader).header,
            final(data).wf(),
            outcome(r, sp_anim_bundle_node(old(loader)@, old(data)@), final(loader)@, final(data)@),
    {
        let inner = match PandaNode::create(loader, data) {
            Ok(n) => n,
            Err(e) => return Err(e),
        };
        let anim_bundle_ref = match loader.read_ref(data) {
            Ok(p) => p,
            Err(e) => return Err(e),
        };
        Ok(AnimBundleNode { inner, anim_bundle_ref })
    }
}

} // verus!
