//! Render attributes and effects.

use vstd::prelude::*;

use crate::bam::{
    lift, outcome, ref_item, ref_sort_item, sp_pointer, sp_ref, sp_repeat, AssetView,
    BinaryAsset, Error, PR,
};
use crate::datagram::{
    dg_bool, dg_float, dg_floats, dg_i16, dg_i32, dg_string, dg_u16, dg_u8, Datagram, DgView,
    FloatBits,
};
use crate::nodes::enums::{ColorType, CullMode, DepthMode, FilterType, WrapMode};

verus! {

/// Which faces a render state culls.
#[derive(Clone, Copy, Debug, PartialEq, Eq, Structural)]
pub struct CullFaceAttrib {
    pub mode: CullMode,
    pub reverse: bool,
}

impl View for CullFaceAttrib {
    type V = CullFaceAttrib;

    open spec fn view(&self) -> CullFaceAttrib {
        *self
    }
}

/// The mode that takes effect: `Unchanged` counts as `Clockwise`, and `reverse` swaps the two
/// windings.
pub open spec fn effective_mode(a: CullFaceAttrib) -> CullMode {
    match a.mode {
        CullMode::CullNone => CullMode::CullNone,
        CullMode::CounterClockwise => if a.reverse {
            CullMode::Clockwise
        } else {
            CullMode::CounterClockwise
        },
        _ => if a.reverse {
            CullMode::CounterClockwise
        } else {
            CullMode::Clockwise
        },
    }
}

/// The other winding: clockwise and counterclockwise trade places, no culling stays.
pub open spec fn flipped(m: CullMode) -> CullMode {
    match m {
        CullMode::Clockwise => CullMode::CounterClockwise,
        CullMode::CounterClockwise => CullMode::Clockwise,
        other => other,
    }
}

/// Reversing an attribute culls the other winding: the effective mode of a reversed attribute
/// is the flipped effective mode of the same attribute unreversed, and an effective mode is
/// never `Unchanged`.
pub proof fn lemma_reverse_flips(mode: CullMode)
    ensures
        effective_mode(CullFaceAttrib { mode, reverse: true }) == flipped(
            effective_mode(CullFaceAttrib { mode, reverse: false }),
        ),
        effective_mode(CullFaceAttrib { mode, reverse: false }) != CullMode::Unchanged,
        effective_mode(CullFaceAttrib { mode, reverse: true }) != CullMode::Unchanged,
        mode == CullMode::Unchanged ==> effective_mode(CullFaceAttrib { mode, reverse: false })
            == CullMode::Clockwise,
{
}

/// Reads a CullFaceAttrib: the mode byte and the reverse flag.
pub open spec fn sp_cull_face(a: AssetView, d: DgView) -> PR<CullFaceAttrib> {
    match lift(dg_u8(d), a) {
        Err(e) => Err(e),
        Ok((m, a, d)) => match lift(dg_bool(d), a) {
            Err(e) => Err(e),
            Ok((reverse, a, d)) => Ok((CullFaceAttrib { mode: CullMode::from_byte(m), reverse }, a, d)),
        },
    }
}

impl CullFaceAttrib {
    /// The cull mode that takes effect (see `effective_mode`).
    pub fn get_effective_mode(&self) -> (m: CullMode)
        ensures
            m == effective_mode(*self),
    {
        if self.reverse {
            match self.mode {
                CullMode::Clockwise | CullMode::Unchanged => CullMode::CounterClockwise,
                CullMode::CounterClockwise => CullMode::Clockwise,
                CullMode::CullNone => CullMode::CullNone,
            }
        } else {
            match self.mode {
                CullMode::Clockwise | CullMode::Unchanged => CullMode::Clockwise,
                CullMode::CounterClockwise => CullMode::CounterClockwise,
                CullMode::CullNone => CullMode::CullNone,
            }
        }
    }

    pub fn create(loader: &mut BinaryAsset, data: &mut Datagram) -> (r: Result<Self, Error>)
        requires
            old(data).wf(),
        ensures
            final(loader).header == old(loader).header,
            final(data).wf(),
            outcome(r, sp_cull_face(old(loader)@, old(data)@), final(loader)@, final(data)@),
    {
        let mode = match data.read_u8() {
            Ok(v) => CullMode::from_u8(v),
            Err(e) => return Err(Error::DataError(e)),
        };
        let reverse = match data.read_bool() {
            Ok(v) => v,
            Err(e) => return Err(Error::DataError(e)),
        };
        Ok(CullFaceAttrib { mode, reverse })
    }
}

/// Whether a render state writes to the depth buffer.
#[derive(Clone, Copy, Debug, PartialEq, Eq, Structural)]
pub struct DepthWriteAttrib {
    pub mode: DepthMode,
}

impl View for DepthWriteAttrib {
    type V = DepthWriteAttrib;

    open spec fn view(&self) -> DepthWriteAttrib {
        *self
    }
}

/// Reads a DepthWriteAttrib: the mode byte.
pub open spec fn sp_depth_write(a: AssetView, d: DgView) -> PR<DepthWriteAttrib> {
    match lift(dg_u8(d), a) {
        Err(e) => Err(e),
        Ok((m, a, d)) => Ok((DepthWriteAttrib { mode: DepthMode::from_byte(m) }, a, d)),
    }
}

impl DepthWriteAttrib {
    /// Whether depth writes are on.
    pub fn depth_write_enabled(&self) -> (b: bool)
        ensures
            b == (self.mode == DepthMode::On),
    {
        match self.mode {
            DepthMode::Off => false,
            DepthMode::On => true,
        }
    }

    pub fn create(loader: &mut BinaryAsset, data: &mut Datagram) -> (r: Result<Self, Error>)
        requires
            old(data).wf(),
        ensures
            final(loader).header == old(loader).header,
            final(data).wf(),
            outcome(r, sp_depth_write(old(loader)@, old(data)@), final(loader)@, final(data)@),
    {
        match data.read_u8() {
            Ok(v) => Ok(DepthWriteAttrib { mode: DepthMode::from_u8(v) }),
            Err(e) => Err(Error::DataError(e)),
        }
    }
}

/// The abstract value of a ColorAttrib.
pub struct ColorAttribView {
    pub color_type: ColorType,
    pub color: Seq<FloatBits>,
}

/// The color a render state gives. The color is stored as read; rounding it for a flat color
/// (or replacing it for the other types) is left to callers that compute with floats.
pub struct ColorAttrib {
    pub color_type: ColorType,
    /// Four floats.
    pub color: Vec<FloatBits>,
}

impl View for ColorAttrib {
    type V = ColorAttribView;

    open spec fn view(&self) -> ColorAttribView {
        ColorAttribView { color_type: self.color_type, color: self.color@ }
    }
}

/// Reads a ColorAttrib: the color type and the color (four floats).
pub open spec fn sp_color_attrib(a: AssetView, d: DgView) -> PR<ColorAttribView> {
    match lift(dg_u8(d), a) {
        Err(e) => Err(e),
        Ok((t, a, d)) => match lift(dg_floats(d, 4), a) {
            Err(e) => Err(e),
            Ok((color, a, d)) => Ok((ColorAttribView { color_type: ColorType::from_byte(t), color }, a, d)),
        },
    }
}

impl ColorAttrib {
    pub fn create(loader: &mut BinaryAsset, data: &mut Datagram) -> (r: Result<Self, Error>)
        requires
            old(data).wf(),
        ensures
            final(loader).header == old(loader).header,
            final(data).wf(),
            outcome(r, sp_color_attrib(old(loader)@, old(data)@), final(loader)@, final(data)@),
    {
        let color_type = match data.read_u8() {
            Ok(b) => ColorType::from_u8(b),
            Err(e) => return Err(Error::DataError(e)),
        };
        let color = match data.read_floats(4) {
            Ok(v) => v,
            Err(e) => return Err(Error::DataError(e)),
        };
        Ok(ColorAttrib { color_type, color })
    }
}

/// The abstract value of a CullBinAttrib.
pub struct CullBinAttribView {
    pub bin_name: Seq<char>,
    pub draw_order: i32,
}

/// The bin that geometry is drawn in, and its order there.
pub struct CullBinAttrib {
    pub bin_name: String,
    pub draw_order: i32,
}

impl View for CullBinAttrib {
    type V = CullBinAttribView;

    open spec fn view(&self) -> CullBinAttribView {
        CullBinAttribView { bin_name: self.bin_name@, draw_order: self.draw_order }
    }
}

/// Reads a CullBinAttrib: the bin name and the draw order.
pub open spec fn sp_cull_bin(a: AssetView, d: DgView) -> PR<CullBinAttribView> {
    match lift(dg_string(d), a) {
        Err(e) => Err(e),
        Ok((bin_name, a, d)) => match lift(dg_i32(d), a) {
            Err(e) => Err(e),
            Ok((draw_order, a, d)) => Ok((CullBinAttribView { bin_name, draw_order }, a, d)),
        },
    }
}

impl CullBinAttrib {
    pub fn create(loader: &mut BinaryAsset, data: &mut Datagram) -> (r: Result<Self, Error>)
        requires
            old(data).wf(),
        ensures
            final(loader).header == old(loader).header,
            final(data).wf(),
            outcome(r, sp_cull_bin(old(loader)@, old(data)@), final(loader)@, final(data)@),
    {
        let bin_name = match data.read_string() {
            Ok(s) => s,
            Err(e) => return Err(Error::DataError(e)),
        };
        let draw_order = match data.read_i32() {
            Ok(v) => v,
            Err(e) => return Err(Error::DataError(e)),
        };
        Ok(CullBinAttrib { bin_name, draw_order })
    }
}

/// Marks geometry as decals on the geometry of its parent.
#[derive(Clone, Copy, Debug, PartialEq, Eq, Structural)]
pub struct DecalEffect {}

impl View for DecalEffect {
    type V = DecalEffect;

    open spec fn view(&self) -> DecalEffect {
        *self
    }
}

impl DecalEffect {
    /// A DecalEffect stores nothing: the datagram and the loader are left as they are.
    pub fn create(loader: &mut BinaryAsset, data: &mut Datagram) -> (r: Result<Self, Error>)
        requires
            old(data).wf(),
        ensures
            final(loader).header == old(loader).header,
            final(data).wf(),
            outcome(r, Ok((DecalEffect {}, old(loader)@, old(data)@)), final(loader)@, final(data)@),
    {
        Ok(DecalEffect {})
    }
}

/// Reads a path of nodes: pointers up to the first null one, which ends it.
pub open spec fn sp_node_path(a: AssetView, d: DgView) -> PR<Seq<u32>>
    decreases d.remaining(),
{
    match sp_pointer(a, d) {
        Err(e) => Err(e),
        Ok((None, a1, d1)) => Ok((Seq::empty(), a1, d1)),
        Ok((Some(p), a1, d1)) => if d1.remaining() < d.remaining() {
            match sp_node_path(a1, d1) {
                Err(e) => Err(e),
                Ok((ps, a2, d2)) => Ok((seq![p] + ps, a2, d2)),
            }
        } else {
            Err(Error::NullPointer)
        },
    }
}

/// A pointer read moves the datagram forward.
proof fn lemma_pointer_advances(a: AssetView, d: DgView)
    requires
        sp_pointer(a, d) is Ok,
    ensures
        sp_pointer(a, d) matches Ok((_, _, d1)) && d1.remaining() < d.remaining() && d1.data == d.data
            && d1.endian == d.endian && d1.use_double == d.use_double,
{
}

/// The abstract value of a NodePath.
pub struct NodePathView {
    pub path_refs: Seq<u32>,
}

/// A path through the scene graph.
pub struct NodePath {
    pub path_refs: Vec<u32>,
}

impl View for NodePath {
    type V = NodePathView;

    open spec fn view(&self) -> NodePathView {
        NodePathView { path_refs: self.path_refs@ }
    }
}

/// Reads a NodePath (see `sp_node_path`).
pub open spec fn sp_node_path_node(a: AssetView, d: DgView) -> PR<NodePathView> {
    match sp_node_path(a, d) {
        Err(e) => Err(e),
        Ok((path_refs, a, d)) => Ok((NodePathView { path_refs }, a, d)),
    }
}

impl NodePath {
    pub fn create(loader: &mut BinaryAsset, data: &mut Datagram) -> (r: Result<Self, Error>)
        requires
            old(data).wf(),
        ensures
            final(loader).header == old(loader).header,
            final(data).wf(),
            outcome(r, sp_node_path_node(old(loader)@, old(data)@), final(loader)@, final(data)@),
    {
        let mut path_refs: Vec<u32> = Vec::new();
        loop
            invariant
                loader.header == old(loader).header,
                data.wf(),
                sp_node_path(old(loader)@, old(data)@) == match sp_node_path(loader@, data@) {
                    Err(e) => Err(e),
                    Ok((rest, a, d)) => Ok((path_refs@ + rest, a, d)),
                },
            decreases data@.remaining(),
        {
            let ghost a1 = loader@;
            let ghost d1 = data@;
            match loader.read_pointer(data) {
                Ok(Some(value)) => {
                    proof {
                        lemma_pointer_advances(a1, d1);
                        match sp_node_path(loader@, data@) {
                            Err(e) => {},
                            Ok((rest, a, d)) => {
                                assert(path_refs@.push(value) + rest =~= path_refs@ + (seq![value] + rest));
                            },
                        }
                    }
                    path_refs.push(value);
                },
                Ok(None) => {
                    assert(path_refs@ + Seq::<u32>::empty() =~= path_refs@);
                    return Ok(NodePath { path_refs });
                },
                Err(e) => {
                    return Err(e);
                },
            }
        }
    }
}

/// The abstract value of a BillboardEffect.
pub struct BillboardEffectView {
    pub off: bool,
    pub up_vector: Seq<FloatBits>,
    pub eye_relative: bool,
    pub axial_rotate: bool,
    pub offset: FloatBits,
    pub look_at_point: Seq<FloatBits>,
    pub look_at: NodePathView,
    pub fixed_depth: bool,
}

/// Turns geometry to face the camera.
pub struct BillboardEffect {
    pub off: bool,
    /// Three floats.
    pub up_vector: Vec<FloatBits>,
    pub eye_relative: bool,
    pub axial_rotate: bool,
    pub offset: FloatBits,
    /// Three floats.
    pub look_at_point: Vec<FloatBits>,
    pub look_at: NodePath,
    pub fixed_depth: bool,
}

impl View for BillboardEffect {
    type V = BillboardEffectView;

    open spec fn view(&self) -> BillboardEffectView {
        BillboardEffectView {
            off: self.off,
            up_vector: self.up_vector@,
            eye_relative: self.eye_relative,
            axial_rotate: self.axial_rotate,
            offset: self.offset,
            look_at_point: self.look_at_point@,
            look_at: self.look_at@,
            fixed_depth: self.fixed_depth,
        }
    }
}

/// The first fields of a BillboardEffect: whether it is off, the up vector, whether it is
/// relative to the eye, whether it rotates about an axis, the offset and the point looked at.
pub open spec fn sp_billboard_head(a: AssetView, d: DgView) -> PR<(bool, Seq<FloatBits>, bool, bool, FloatBits, Seq<FloatBits>)> {
    match lift(dg_bool(d), a) {
        Err(e) => Err(e),
        Ok((off, a, d)) => match lift(dg_floats(d, 3), a) {
            Err(e) => Err(e),
            Ok((up, a, d)) => match lift(dg_bool(d), a) {
                Err(e) => Err(e),
                Ok((eye, a, d)) => match lift(dg_bool(d), a) {
                    Err(e) => Err(e),
                    Ok((axial, a, d)) => match lift(dg_float(d), a) {
                        Err(e) => Err(e),
                        Ok((offset, a, d)) => match lift(dg_floats(d, 3), a) {
                            Err(e) => Err(e),
                            Ok((point, a, d)) => Ok(((off, up, eye, axial, offset, point), a, d)),
                        },
                    },
                },
            },
        },
    }
}

/// Reads a BillboardEffect: `sp_billboard_head`, then from BAM 6.43 on the node looked at and
/// whether the depth is fixed (an empty path and false before).
pub open spec fn sp_billboard(a: AssetView, d: DgView) -> PR<BillboardEffectView> {
    match sp_billboard_head(a, d) {
        Err(e) => Err(e),
        Ok(((off, up_vector, eye_relative, axial_rotate, offset, look_at_point), a, d)) => if a.header.version.minor >= 43 {
            match sp_node_path_node(a, d) {
                Err(e) => Err(e),
                Ok((look_at, a, d)) => match lift(dg_bool(d), a) {
                    Err(e) => Err(e),
                    Ok((fixed_depth, a, d)) => Ok(
                        (
                            BillboardEffectView {
                                off,
                                up_vector,
                                eye_relative,
                                axial_rotate,
                                offset,
                                look_at_point,
                                look_at,
                                fixed_depth,
                            },
                            a,
                            d,
                        ),
                    ),
                },
            }
        } else {
            Ok(
                (
                    BillboardEffectView {
                        off,
                        up_vector,
                        eye_relative,
                        axial_rotate,
                        offset,
                        look_at_point,
                        look_at: NodePathView { path_refs: Seq::empty() },
                        fixed_depth: false,
                    },
                    a,
                    d,
                ),
            )
        },
    }
}

fn read_billboard_head(loader: &mut BinaryAsset, data: &mut Datagram) -> (r: Result<(bool, Vec<FloatBits>, bool, bool, FloatBits, Vec<FloatBits>), Error>)
    requires
        old(data).wf(),
    ensures
        final(loader).header == old(loader).header,
        final(data).wf(),
        match sp_billboard_head(old(loader)@, old(data)@) {
            Ok((v, a, d)) => r matches Ok(x) && x.0 == v.0 && x.1@ == v.1 && x.2 == v.2 && x.3 == v.3
                && x.4 == v.4 && x.5@ == v.5 && final(loader)@ == a && final(data)@ == d,
            Err(e) => r == Err::<(bool, Vec<FloatBits>, bool, bool, FloatBits, Vec<FloatBits>), Error>(e),
        },
{
    let off = match data.read_bool() {
        Ok(v) => v,
        Err(e) => return Err(Error::DataError(e)),
    };
    let up_vector = match data.read_floats(3) {
        Ok(v) => v,
        Err(e) => return Err(Error::DataError(e)),
    };
    let eye_relative = match data.read_bool() {
        Ok(v) => v,
        Err(e) => return Err(Error::DataError(e)),
    };
    let axial_rotate = match data.read_bool() {
        Ok(v) => v,
        Err(e) => return Err(Error::DataError(e)),
    };
    let offset = match data.read_float() {
        Ok(v) => v,
        Err(e) => return Err(Error::DataError(e)),
    };
    let look_at_point = match data.read_floats(3) {
        Ok(v) => v,
        Err(e) => return Err(Error::DataError(e)),
    };
    Ok((off, up_vector, eye_relative, axial_rotate, offset, look_at_point))
}

impl BillboardEffect {
    pub fn create(loader: &mut BinaryAsset, data: &mut Datagram) -> (r: Result<Self, Error>)
        requires
            old(data).wf(),
        ensures
            final(loader).header == old(loader).header,
            final(data).wf(),
            outcome(r, sp_billboard(old(loader)@, old(data)@), final(loader)@, final(data)@),
    {
        let (off, up_vector, eye_relative, axial_rotate, offset, look_at_point) = match read_billboard_head(loader, data) {
            Ok(h) => h,
            Err(e) => return Err(e),
        };
        let (look_at, fixed_depth) = if loader.get_minor_version() >= 43 {
            let look_at = match NodePath::create(loader, data) {
                Ok(p) => p,
                Err(e) => return Err(e),
            };
            let fixed_depth = match data.read_bool() {
                Ok(v) => v,
                Err(e) => return Err(Error::DataError(e)),
            };
            (look_at, fixed_depth)
        } else {
            (NodePath { path_refs: Vec::new() }, false)
        };
        Ok(BillboardEffect {
            off,
            up_vector,
            eye_relative,
            axial_rotate,
            offset,
            look_at_point,
            look_at,
            fixed_depth,
        })
    }
}

/// The abstract value of a RenderState.
pub struct RenderStateView {
    pub attrib_refs: Seq<(u32, i32)>,
}

/// A set of render attributes.
pub struct RenderState {
    /// This stores a pointer to each RenderAttrib and its associated override value
    pub attrib_refs: Vec<(u32, i32)>,
}

impl View for RenderState {
    type V = RenderStateView;

    open spec fn view(&self) -> RenderStateView {
        RenderStateView { attrib_refs: self.attrib_refs@ }
    }
}

/// Reads a RenderState: a 16-bit count of attributes, each with its override value.
pub open spec fn sp_render_state(a: AssetView, d: DgView) -> PR<RenderStateView> {
    match lift(dg_u16(d), a) {
        Err(e) => Err(e),
        Ok((n, a, d)) => match sp_repeat(ref_sort_item(), a, d, n as nat) {
            Err(e) => Err(e),
            Ok((attrib_refs, a, d)) => Ok((RenderStateView { attrib_refs }, a, d)),
        },
    }
}

impl RenderState {
    pub fn create(loader: &mut BinaryAsset, data: &mut Datagram) -> (r: Result<Self, Error>)
        requires
            old(data).wf(),
        ensures
            final(loader).header == old(loader).header,
            final(data).wf(),
            outcome(r, sp_render_state(old(loader)@, old(data)@), final(loader)@, final(data)@),
    {
        let num_attribs = match data.read_u16() {
            Ok(v) => v,
            Err(e) => return Err(Error::DataError(e)),
        };
        match loader.read_ref_sorts(data, num_attribs as u32) {
            Ok(attrib_refs) => Ok(RenderState { attrib_refs }),
            Err(e) => Err(e),
        }
    }
}

/// The abstract value of a RenderEffects.
pub struct RenderEffectsView {
    pub effect_refs: Seq<u32>,
}

/// A set of render effects.
pub struct RenderEffects {
    /// References to all Effects
    pub effect_refs: Vec<u32>,
}

impl View for RenderEffects {
    type V = RenderEffectsView;

    open spec fn view(&self) -> RenderEffectsView {
        RenderEffectsView { effect_refs: self.effect_refs@ }
    }
}

/// Reads a RenderEffects: a 16-bit count of effects.
pub open spec fn sp_render_effects(a: AssetView, d: DgView) -> PR<RenderEffectsView> {
    match lift(dg_u16(d), a) {
        Err(e) => Err(e),
        Ok((n, a, d)) => match sp_repeat(ref_item(), a, d, n as nat) {
            Err(e) => Err(e),
            Ok((effect_refs, a, d)) => Ok((RenderEffectsView { effect_refs }, a, d)),
        },
    }
}

impl RenderEffects {
    pub fn create(loader: &mut BinaryAsset, data: &mut Datagram) -> (r: Result<Self, Error>)
        requires
            old(data).wf(),
        ensures
            final(loader).header == old(loader).header,
            final(data).wf(),
            outcome(r, sp_render_effects(old(loader)@, old(data)@), final(loader)@, final(data)@),
    {
        let num_effects = match data.read_u16() {
            Ok(v) => v,
            Err(e) => return Err(Error::DataError(e)),
        };
        match loader.read_refs(data, num_effects as u32) {
            Ok(effect_refs) => Ok(RenderEffects { effect_refs }),
            Err(e) => Err(e),
        }
    }
}

/// Ties geometry to the character whose joints move it.
#[derive(Clone, Copy, Debug, PartialEq, Eq, Structural)]
pub struct CharacterJointEffect {
    pub character_ref: u32,
}

impl View for CharacterJointEffect {
    type V = CharacterJointEffect;

    open spec fn view(&self) -> CharacterJointEffect {
        *self
    }
}

/// Reads a CharacterJointEffect: the character reference.
pub open spec fn sp_character_joint_effect(a: AssetView, d: DgView) -> PR<CharacterJointEffect> {
    match sp_ref(a, d) {
        Err(e) => Err(e),
        Ok((character_ref, a, d)) => Ok((CharacterJointEffect { character_ref }, a, d)),
    }
}

impl CharacterJointEffect {
    pub fn create(loader: &mut BinaryAsset, data: &mut Datagram) -> (r: Result<Self, Error>)
        requires
            old(data).wf(),
        ensures
            final(loader).header == old(loader).header,
            final(data).wf(),
            outcome(r, sp_character_joint_effect(old(loader)@, old(data)@), final(loader)@, final(data)@),
    {
        match loader.read_ref(data) {
            Ok(character_ref) => Ok(CharacterJointEffect { character_ref }),
            Err(e) => Err(e),
        }
    }
}

/// The level-of-detail settings a SamplerState has before BAM 6.36: minimum -1000.0, maximum
/// 1000.0 and bias 0.0, as single-precision bits.
pub open spec fn default_lod() -> (FloatBits, FloatBits, FloatBits) {
    (FloatBits::Single(0xC47A_0000), FloatBits::Single(0x447A_0000), FloatBits::Single(0))
}

/// How a texture is sampled.
pub struct SamplerState {
    pub wrap_u: WrapMode,
    pub wrap_v: WrapMode,
    pub wrap_w: WrapMode,
    pub min_filter: FilterType,
    pub mag_filter: FilterType,
    pub aniso_degree: i16,
    /// Four floats.
    pub border_color: Vec<FloatBits>,
    pub min_lod: FloatBits,
    pub max_lod: FloatBits,
    pub lod_bias: FloatBits,
}

/// The abstract value of a SamplerState.
pub struct SamplerStateView {
    pub wrap_u: WrapMode,
    pub wrap_v: WrapMode,
    pub wrap_w: WrapMode,
    pub min_filter: FilterType,
    pub mag_filter: FilterType,
    pub aniso_degree: i16,
    pub border_color: Seq<FloatBits>,
    pub min_lod: FloatBits,
    pub max_lod: FloatBits,
    pub lod_bias: FloatBits,
}

impl View for SamplerState {
    type V = SamplerStateView;

    open spec fn view(&self) -> SamplerStateView {
        SamplerStateView {
            wrap_u: self.wrap_u,
            wrap_v: self.wrap_v,
            wrap_w: self.wrap_w,
            min_filter: self.min_filter,
            mag_filter: self.mag_filter,
            aniso_degree: self.aniso_degree,
            border_color: self.border_color@,
            min_lod: self.min_lod,
            max_lod: self.max_lod,
            lod_bias: self.lod_bias,
        }
    }
}

/// The wrap modes and filters of a SamplerState.
pub open spec fn sp_sampler_modes(a: AssetView, d: DgView) -> PR<(WrapMode, WrapMode, WrapMode, FilterType, FilterType)> {
    match lift(dg_u8(d), a) {
        Err(e) => Err(e),
        Ok((u, a, d)) => match lift(dg_u8(d), a) {
            Err(e) => Err(e),
            Ok((v, a, d)) => match lift(dg_u8(d), a) {
                Err(e) => Err(e),
                Ok((w, a, d)) => match lift(dg_u8(d), a) {
                    Err(e) => Err(e),
                    Ok((mn, a, d)) => match lift(dg_u8(d), a) {
                        Err(e) => Err(e),
                        Ok((mg, a, d)) => Ok(
                            (
                                (
                                    WrapMode::from_byte(u),
                                    WrapMode::from_byte(v),
                                    WrapMode::from_byte(w),
                                    FilterType::from_byte(mn),
                                    FilterType::from_byte(mg),
                                ),
                                a,
                                d,
                            ),
                        ),
                    },
                },
            },
        },
    }
}

/// Reads a SamplerState: `sp_sampler_modes`, the anisotropy degree, the border color (four
/// floats), then from BAM 6.36 on the minimum and maximum level of detail and the bias
/// (`default_lod` before).
pub open spec fn sp_sampler_state(a: AssetView, d: DgView) -> PR<SamplerStateView> {
    match sp_sampler_modes(a, d) {
        Err(e) => Err(e),
        Ok(((wrap_u, wrap_v, wrap_w, min_filter, mag_filter), a, d)) => match lift(dg_i16(d), a) {
            Err(e) => Err(e),
            Ok((aniso_degree, a, d)) => match lift(dg_floats(d, 4), a) {
                Err(e) => Err(e),
                Ok((border_color, a, d)) => {
                    let lod: PR<Seq<FloatBits>> = if a.header.version.minor >= 36 {
                        lift(dg_floats(d, 3), a)
                    } else {
                        Ok((seq![default_lod().0, default_lod().1, default_lod().2], a, d))
                    };
                    match lod {
                        Err(e) => Err(e),
                        Ok((l, a, d)) => Ok(
                            (
                                SamplerStateView {
                                    wrap_u,
                                    wrap_v,
                                    wrap_w,
                                    min_filter,
                                    mag_filter,
                                    aniso_degree,
                                    border_color,
                                    min_lod: l[0],
                                    max_lod: l[1],
                                    lod_bias: l[2],
                                },
                                a,
                                d,
                            ),
                        ),
                    }
                },
            },
        },
    }
}

fn read_sampler_modes(loader: &mut BinaryAsset, data: &mut Datagram) -> (r: Result<(WrapMode, WrapMode, WrapMode, FilterType, FilterType), Error>)
    requires
        old(data).wf(),
    ensures
        final(loader).header == old(loader).header,
        final(data).wf(),
        outcome(r, sp_sampler_modes(old(loader)@, old(data)@), final(loader)@, final(data)@),
{
    let wrap_u = match data.read_u8() {
        Ok(b) => WrapMode::from_u8(b),
        Err(e) => return Err(Error::DataError(e)),
    };
    let wrap_v = match data.read_u8() {
        Ok(b) => WrapMode::from_u8(b),
        Err(e) => return Err(Error::DataError(e)),
    };
    let wrap_w = match data.read_u8() {
        Ok(b) => WrapMode::from_u8(b),
        Err(e) => return Err(Error::DataError(e)),
    };
    let min_filter = match data.read_u8() {
        Ok(b) => FilterType::from_u8(b),
        Err(e) => return Err(Error::DataError(e)),
    };
    let mag_filter = match data.read_u8() {
        Ok(b) => FilterType::from_u8(b),
        Err(e) => return Err(Error::DataError(e)),
    };
    Ok((wrap_u, wrap_v, wrap_w, min_filter, mag_filter))
}

impl SamplerState {
    pub fn create(loader: &mut BinaryAsset, data: &mut Datagram) -> (r: Result<Self, Error>)
        requires
            old(data).wf(),
        ensures
            final(loader).header == old(loader).header,
            final(data).wf(),
            outcome(r, sp_sampler_state(old(loader)@, old(data)@), final(loader)@, final(data)@),
    {
        let (wrap_u, wrap_v, wrap_w, min_filter, mag_filter) = match read_sampler_modes(loader, data) {
            Ok(m) => m,
            Err(e) => return Err(e),
        };
        let aniso_degree = match data.read_i16() {
            Ok(v) => v,
            Err(e) => return Err(Error::DataError(e)),
        };
        let border_color = match data.read_floats(4) {
            Ok(v) => v,
            Err(e) => return Err(Error::DataError(e)),
        };
        let (min_lod, max_lod, lod_bias) = if loader.get_minor_version() >= 36 {
            let l = match data.read_floats(3) {
                Ok(v) => v,
                Err(e) => return Err(Error::DataError(e)),
            };
            (l[0], l[1], l[2])
        } else {
            (FloatBits::Single(0xC47A_0000), FloatBits::Single(0x447A_0000), FloatBits::Single(0))
        };
        Ok(SamplerState {
            wrap_u,
            wrap_v,
            wrap_w,
            min_filter,
            mag_filter,
            aniso_degree,
            border_color,
            min_lod,
            max_lod,
            lod_bias,
        })
    }
}

} // verus!
