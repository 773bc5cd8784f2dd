//! Geometry: Geoms, their primitives, and the vertex data and formats they draw from.

use vstd::prelude::*;

use crate::bam::{
    lemma_repeat_err, lift, outcome, ref_item, sp_pointer, sp_pta_id, sp_ref, sp_repeat,
    AssetView, BinaryAsset, Error, PR,
};
use crate::bytes::{DataError, Endian};
use crate::datagram::{dg_bool, dg_i32, dg_string, dg_u16, dg_u32, dg_u8, Datagram, DgView};
use crate::nodes::enums::{
    AnimationType, BoundsType, Contents, NumericType, PrimitiveType, ShadeModel, UsageHint,
};

verus! {

/// Bits of the rendering flags of a Geom that have a meaning.
pub const GEOM_RENDERING_BITS: u32 = 0x1F_7FFF;

/// Rendering flags of a Geom, as a bit set.
#[derive(Clone, Copy, Debug, PartialEq, Eq, Structural)]
pub struct GeomRendering {
    pub bits: u32,
}

impl View for GeomRendering {
    type V = GeomRendering;

    open spec fn view(&self) -> GeomRendering {
        *self
    }
}

impl GeomRendering {
    /// The flags of `bits` that have a meaning; the others are dropped.
    pub fn from_bits_truncate(bits: u32) -> (r: GeomRendering)
        ensures
            r.bits == bits & GEOM_RENDERING_BITS,
    {
        GeomRendering { bits: bits & GEOM_RENDERING_BITS }
    }
}

/// The abstract value of a Geom.
pub struct GeomView {
    pub data_ref: u32,
    pub primitive_refs: Seq<u32>,
    pub primitive_type: PrimitiveType,
    pub shade_model: ShadeModel,
    pub geom_rendering: GeomRendering,
    pub bounds_type: BoundsType,
}

/// A piece of geometry: vertex data and the primitives drawn from it.
pub struct Geom {
    /// Reference to the associated GeomVertexData
    pub data_ref: u32,
    /// References to all GeomPrimitive data
    pub primitive_refs: Vec<u32>,
    pub primitive_type: PrimitiveType,
    pub shade_model: ShadeModel,
    pub geom_rendering: GeomRendering,
    pub bounds_type: BoundsType,
}

impl View for Geom {
    type V = GeomView;

    open spec fn view(&self) -> GeomView {
        GeomView {
            data_ref: self.data_ref,
            primitive_refs: self.primitive_refs@,
            primitive_type: self.primitive_type,
            shade_model: self.shade_model,
            geom_rendering: self.geom_rendering,
            bounds_type: self.bounds_type,
        }
    }
}

/// The primitive type, shade model, rendering flags (16 bits stored) and, from BAM 6.19 on,
/// bounds type of a Geom.
pub open spec fn sp_geom_tail(a: AssetView, d: DgView) -> PR<(PrimitiveType, ShadeModel, GeomRendering, BoundsType)> {
    match lift(dg_u8(d), a) {
        Err(e) => Err(e),
        Ok((p, a, d)) => match lift(dg_u8(d), a) {
            Err(e) => Err(e),
            Ok((s, a, d)) => match lift(dg_u16(d), a) {
                Err(e) => Err(e),
                Ok((g, a, d)) => {
                    let rendering = GeomRendering { bits: (g as u32) & GEOM_RENDERING_BITS };
                    if a.header.version.minor >= 19 {
                        match lift(dg_u8(d), a) {
                            Err(e) => Err(e),
                            Ok((b, a, d)) => Ok(
                                (
                                    (PrimitiveType::from_byte(p), ShadeModel::from_byte(s), rendering, BoundsType::from_byte(b)),
                                    a,
                                    d,
                                ),
                            ),
                        }
                    } else {
                        Ok(((PrimitiveType::from_byte(p), ShadeModel::from_byte(s), rendering, BoundsType::Default), a, d))
                    }
                },
            },
        },
    }
}

/// Reads a Geom: its vertex data, a 16-bit count of primitives, then `sp_geom_tail`.
pub open spec fn sp_geom(a: AssetView, d: DgView) -> PR<GeomView> {
    match sp_ref(a, d) {
        Err(e) => Err(e),
        Ok((data_ref, a, d)) => match lift(dg_u16(d), a) {
            Err(e) => Err(e),
            Ok((n, a, d)) => match sp_repeat(ref_item(), a, d, n as nat) {
                Err(e) => Err(e),
                Ok((primitive_refs, a, d)) => match sp_geom_tail(a, d) {
                    Err(e) => Err(e),
                    Ok(((primitive_type, shade_model, geom_rendering, bounds_type), a, d)) => Ok(
                        (
                            GeomView {
                                data_ref,
                                primitive_refs,
                                primitive_type,
                                shade_model,
                                geom_rendering,
                                bounds_type,
                            },
                            a,
                            d,
                        ),
                    ),
                },
            },
        },
    }
}

fn read_geom_tail(loader: &mut BinaryAsset, data: &mut Datagram) -> (r: Result<(PrimitiveType, ShadeModel, GeomRendering, BoundsType), Error>)
    requires
        old(data).wf(),
    ensures
        final(loader).header == old(loader).header,
        final(data).wf(),
        outcome(r, sp_geom_tail(old(loader)@, old(data)@), final(loader)@, final(data)@),
{
    let primitive_type = match data.read_u8() {
        Ok(b) => PrimitiveType::from_u8(b),
        Err(e) => return Err(Error::DataError(e)),
    };
    let shade_model = match data.read_u8() {
        Ok(b) => ShadeModel::from_u8(b),
        Err(e) => return Err(Error::DataError(e)),
    };
    let geom_rendering = match data.read_u16() {
        Ok(v) => GeomRendering::from_bits_truncate(v as u32),
        Err(e) => return Err(Error::DataError(e)),
    };
    let bounds_type = if loader.get_minor_version() >= 19 {
        match data.read_u8() {
            Ok(b) => BoundsType::from_u8(b),
            Err(e) => return Err(Error::DataError(e)),
        }
    } else {
        BoundsType::Default
    };
    Ok((primitive_type, shade_model, geom_rendering, bounds_type))
}

impl Geom {
    pub fn create(loader: &mut BinaryAsset, data: &mut Datagram) -> (r: Result<Self, Error>)
        requires
            old(data).wf(),
        ensures
            final(loader).header == old(loader).header,
            final(data).wf(),
            outcome(r, sp_geom(old(loader)@, old(data)@), final(loader)@, final(data)@),
    {
        let data_ref = match loader.read_ref(data) {
            Ok(p) => p,
            Err(e) => return Err(e),
        };
        let num_primitives = match data.read_u16() {
            Ok(v) => v,
            Err(e) => return Err(Error::DataError(e)),
        };
        let primitive_refs = match loader.read_refs(data, num_primitives as u32) {
            Ok(v) => v,
            Err(e) => return Err(e),
        };
        let (primitive_type, shade_model, geom_rendering, bounds_type) = match read_geom_tail(loader, data) {
            Ok(t) => t,
            Err(e) => return Err(e),
        };
        Ok(Geom { data_ref, primitive_refs, primitive_type, shade_model, geom_rendering, bounds_type })
    }
}

/// Reads a 32-bit value, as a list item.
pub open spec fn u32_item() -> spec_fn(AssetView, DgView) -> PR<u32> {
    |a: AssetView, d: DgView| lift(dg_u32(d), a)
}

/// Reads the array of vertex ends of a primitive: a pointer-to-array ID, zero for none (then a
/// 32-bit size that must be zero). IDs count from one, so the array is array `id - 1`: an ID
/// past the arrays read so far announces a new array, a 32-bit size and that many 32-bit
/// values, which is stored; any other ID names an array already stored, and nothing more is
/// read.
pub open spec fn sp_ends(a: AssetView, d: DgView) -> PR<Option<u32>> {
    match sp_pta_id(a, d) {
        Err(e) => Err(e),
        Ok((x, a, d)) => if x == 0 {
            match lift(dg_u32(d), a) {
                Err(e) => Err(e),
                Ok((size, a, d)) => if size == 0 {
                    Ok((None, a, d))
                } else {
                    Err(Error::InvalidArray)
                },
            }
        } else if x > a.arrays.len() as u32 {
            match lift(dg_u32(d), a) {
                Err(e) => Err(e),
                Ok((size, a, d)) => match sp_repeat(u32_item(), a, d, size as nat) {
                    Err(e) => Err(e),
                    Ok((values, a, d)) => Ok(
                        (Some((x - 1) as u32), AssetView { arrays: a.arrays.push(values), ..a }, d),
                    ),
                },
            }
        } else {
            Ok((Some((x - 1) as u32), a, d))
        },
    }
}

/// The abstract value of a GeomPrimitive.
#[derive(Clone, Copy, Debug, PartialEq, Eq, Structural)]
pub struct GeomPrimitive {
    pub shade_model: ShadeModel,
    pub first_vertex: i32,
    pub num_vertices: i32,
    pub index_type: NumericType,
    pub usage_hint: UsageHint,
    /// Reference to the Vertex Data
    pub vertices_ref: Option<u32>,
    /// Pointer To Array of the Vertex Ends (only used if this is an abnormal primitive like a tristrip)
    pub ends_ref: Option<u32>,
}

impl View for GeomPrimitive {
    type V = GeomPrimitive;

    open spec fn view(&self) -> GeomPrimitive {
        *self
    }
}

/// Reads a GeomPrimitive: shade model, first vertex, vertex count, index type, usage hint,
/// vertex data pointer and the array of vertex ends (see `sp_ends`).
pub open spec fn sp_geom_primitive(a: AssetView, d: DgView) -> PR<GeomPrimitive> {
    match lift(dg_u8(d), a) {
        Err(e) => Err(e),
        Ok((s, a, d)) => match lift(dg_i32(d), a) {
            Err(e) => Err(e),
            Ok((first_vertex, a, d)) => match lift(dg_i32(d), a) {
                Err(e) => Err(e),
                Ok((num_vertices, a, d)) => match lift(dg_u8(d), a) {
                    Err(e) => Err(e),
                    Ok((it, a, d)) => match lift(dg_u8(d), a) {
                        Err(e) => Err(e),
                        Ok((u, a, d)) => match sp_pointer(a, d) {
                            Err(e) => Err(e),
                            Ok((vertices_ref, a, d)) => match sp_ends(a, d) {
                                Err(e) => Err(e),
                                Ok((ends_ref, a, d)) => Ok(
                                    (
                                        GeomPrimitive {
                                            shade_model: ShadeModel::from_byte(s),
                                            first_vertex,
                                            num_vertices,
                                            index_type: NumericType::from_byte(it),
                                            usage_hint: UsageHint::from_byte(u),
                                            vertices_ref,
                                            ends_ref,
                                        },
                                        a,
                                        d,
                                    ),
                                ),
                            },
                        },
                    },
                },
            },
        },
    }
}

impl BinaryAsset {
    /// Reads `n` 32-bit values.
    pub fn read_u32s(&mut self, data: &mut Datagram, n: u32) -> (r: Result<Vec<u32>, Error>)
        requires
            old(data).wf(),
        ensures
            final(self).header == old(self).header,
            final(data).wf(),
            outcome(r, sp_repeat(u32_item(), old(self)@, old(data)@, n as nat), final(self)@, final(data)@),
    {
        let ghost a0 = self@;
        let ghost d0 = data@;
        let mut v: Vec<u32> = Vec::new();
        let mut i: u32 = 0;
        while i < n
            invariant
                data.wf(),
                a0 == old(self)@,
                d0 == old(data)@,
                self@ == a0,
                self.header == old(self).header,
                i <= n,
                sp_repeat(u32_item(), a0, d0, i as nat) == Ok::<(Seq<u32>, AssetView, DgView), Error>((v@, self@, data@)),
            decreases n - i,
        {
            match data.read_u32() {
                Ok(x) => {
                    v.push(x);
                },
                Err(e) => {
                    proof {
                        lemma_repeat_err(u32_item(), a0, d0, (i + 1) as nat, n as nat);
                    }
                    return Err(Error::DataError(e));
                },
            }
            i = i + 1;
        }
        Ok(v)
    }

    /// Reads the array of vertex ends of a primitive (see `sp_ends`).
    pub fn read_ends(&mut self, data: &mut Datagram) -> (r: Result<Option<u32>, Error>)
        requires
            old(data).wf(),
        ensures
            final(self).header == old(self).header,
            final(data).wf(),
            outcome(r, sp_ends(old(self)@, old(data)@), final(self)@, final(data)@),
    {
        let x = match self.read_pta_id(data) {
            Ok(v) => v,
            Err(e) => return Err(e),
        };
        if x == 0 {
            match data.read_u32() {
                Ok(0) => Ok(None),
                Ok(_) => Err(Error::InvalidArray),
                Err(e) => Err(Error::DataError(e)),
            }
        } else if x > self.arrays.len() as u32 {
            let size = match data.read_u32() {
                Ok(v) => v,
                Err(e) => return Err(Error::DataError(e)),
            };
            let array = match self.read_u32s(data, size) {
                Ok(v) => v,
                Err(e) => return Err(e),
            };
            let ghost before = self.arrays.deep_view();
            assert(array.deep_view() =~= array@);
            self.arrays.push(array);
            assert(self.arrays.deep_view() =~= before.push(array@));
            Ok(Some(x - 1))
        } else {
            Ok(Some(x - 1))
        }
    }
}

impl GeomPrimitive {
    pub fn create(loader: &mut BinaryAsset, data: &mut Datagram) -> (r: Result<Self, Error>)
        requires
            old(data).wf(),
        ensures
            final(loader).header == old(loader).header,
            final(data).wf(),
            outcome(r, sp_geom_primitive(old(loader)@, old(data)@), final(loader)@, final(data)@),
    {
        let shade_model = match data.read_u8() {
            Ok(b) => ShadeModel::from_u8(b),
            Err(e) => return Err(Error::DataError(e)),
        };
        let first_vertex = match data.read_i32() {
            Ok(v) => v,
            Err(e) => return Err(Error::DataError(e)),
        };
        let num_vertices = match data.read_i32() {
            Ok(v) => v,
            Err(e) => return Err(Error::DataError(e)),
        };
        let index_type = match data.read_u8() {
            Ok(b) => NumericType::from_u8(b),
            Err(e) => return Err(Error::DataError(e)),
        };
        let usage_hint = match data.read_u8() {
            Ok(b) => UsageHint::from_u8(b),
            Err(e) => return Err(Error::DataError(e)),
        };
        let vertices_ref = match loader.read_pointer(data) {
            Ok(p) => p,
            Err(e) => return Err(e),
        };
        let ends_ref = match loader.read_ends(data) {
            Ok(p) => p,
            Err(e) => return Err(e),
        };
        Ok(GeomPrimitive { shade_model, first_vertex, num_vertices, index_type, usage_hint, vertices_ref, ends_ref })
    }
}

/// A triangle strip primitive.
#[derive(Clone, Copy, Debug, PartialEq, Eq, Structural)]
pub struct GeomTristrips {
    pub primitive: GeomPrimitive,
}

impl View for GeomTristrips {
    type V = GeomTristrips;

    open spec fn view(&self) -> GeomTristrips {
        *self
    }
}

/// Reads a GeomTristrips: a GeomPrimitive.
pub open spec fn sp_geom_tristrips(a: AssetView, d: DgView) -> PR<GeomTristrips> {
    match sp_geom_primitive(a, d) {
        Err(e) => Err(e),
        Ok((primitive, a, d)) => Ok((GeomTristrips { primitive }, a, d)),
    }
}

impl GeomTristrips {
    pub fn create(loader: &mut BinaryAsset, data: &mut Datagram) -> (r: Result<Self, Error>)
        requires
            old(data).wf(),
        ensures
            final(loader).header == old(loader).header,
            final(data).wf(),
            outcome(r, sp_geom_tristrips(old(loader)@, old(data)@), final(loader)@, final(data)@),
    {
        match GeomPrimitive::create(loader, data) {
            Ok(primitive) => Ok(GeomTristrips { primitive }),
            Err(e) => Err(e),
        }
    }
}

/// Columns start at multiples of this many bytes unless they ask for another alignment.
pub const VERTEX_COLUMN_ALIGNMENT: u8 = 4;

/// One column of a vertex array format.
#[derive(Clone, Copy, Debug, PartialEq, Eq, Structural)]
pub struct GeomVertexColumn {
    pub name_ref: u32,
    pub num_components: u8,
    pub numeric_type: NumericType,
    pub contents: Contents,
    pub start: u16,
    pub column_alignment: u8,
    pub num_elements: u8,
    pub element_stride: u16,
    pub num_values: u16,
    pub component_bytes: u8,
    pub total_bytes: u32,
}

impl View for GeomVertexColumn {
    type V = GeomVertexColumn;

    open spec fn view(&self) -> GeomVertexColumn {
        *self
    }
}

/// The bytes of one component of a numeric type (after `StdFloat` is resolved), and how many
/// values a component packs.
pub open spec fn component_layout(t: NumericType) -> (u8, u16) {
    match t {
        NumericType::U8 | NumericType::I8 => (1, 1),
        NumericType::U16 | NumericType::I16 => (2, 1),
        NumericType::PackedDCBA | NumericType::PackedDABC => (4, 4),
        NumericType::F64 => (8, 1),
        NumericType::PackedUFloat => (4, 3),
        _ => (4, 1),
    }
}

/// `n` rounded up to a multiple of `m`.
pub open spec fn round_up(n: int, m: int) -> int {
    ((n + m - 1) / m) * m
}

/// The derived fields of a column: `StdFloat` becomes `F64` or `F32` by the file's float
/// width; the component size and value count follow the numeric type; an element count of
/// zero becomes the component count for matrices and one otherwise; an alignment of zero
/// becomes the larger of the component size and `VERTEX_COLUMN_ALIGNMENT`; the start is rounded
/// up to the alignment; a stride of zero becomes component size times component count; the
/// total is stride times element count. `None` when the rounded start does not fit 16 bits.
pub open spec fn setup_column(c: GeomVertexColumn, use_double: bool) -> Option<GeomVertexColumn> {
    let t = if c.numeric_type == NumericType::StdFloat {
        if use_double {
            NumericType::F64
        } else {
            NumericType::F32
        }
    } else {
        c.numeric_type
    };
    let (cb, f) = component_layout(t);
    let num_elements: u8 = if c.num_elements == 0 {
        if c.contents == Contents::Matrix {
            c.num_components
        } else {
            1
        }
    } else {
        c.num_elements
    };
    let align: u8 = if c.column_alignment < 1 {
        if cb > VERTEX_COLUMN_ALIGNMENT {
            cb
        } else {
            VERTEX_COLUMN_ALIGNMENT
        }
    } else {
        c.column_alignment
    };
    let start = round_up(c.start as int, align as int);
    let stride: u16 = if c.element_stride < 1 {
        (cb * c.num_components) as u16
    } else {
        c.element_stride
    };
    if start > u16::MAX {
        None
    } else {
        Some(
            GeomVertexColumn {
                numeric_type: t,
                num_values: (c.num_components * f) as u16,
                component_bytes: cb,
                num_elements,
                column_alignment: align,
                start: start as u16,
                element_stride: stride,
                total_bytes: (stride * num_elements) as u32,
                ..c
            },
        )
    }
}

/// `n` rounded up to a multiple of `m`.
fn round_up_u32(n: u32, m: u32) -> (r: u32)
    requires
        1 <= m <= 0xFF,
        n <= 0xFFFF,
    ensures
        r == round_up(n as int, m as int),
{
    let q = (n + m - 1) / m;
    let ghost t: int = n + m - 1;
    assert(q * m <= t) by (nonlinear_arith)
        requires q as int == t / (m as int), m >= 1, t >= 0;
    q * m
}

/// A column once set up starts on its alignment, at most one alignment step after where it
/// asked to start; its stride and total follow from its components; and setting it up again
/// changes nothing.
pub proof fn lemma_setup_column(c: GeomVertexColumn, use_double: bool)
    requires
        setup_column(c, use_double) is Some,
    ensures
        setup_column(c, use_double) matches Some(s) && s.column_alignment >= 1 && (s.start as int)
            % (s.column_alignment as int) == 0 && c.start <= s.start < c.start + s.column_alignment
            && s.numeric_type != NumericType::StdFloat && s.total_bytes
            == s.element_stride * s.num_elements && setup_column(s, use_double) == Some(s),
{
    let s = setup_column(c, use_double)->Some_0;
    let a = s.column_alignment as int;
    let n = c.start as int;
    assert(a >= 1);
    let q = (n + a - 1) / a;
    assert(q * a == s.start);
    assert((q * a) % a == 0) by (nonlinear_arith)
        requires a >= 1;
    assert(n <= q * a < n + a) by (nonlinear_arith)
        requires q == (n + a - 1) / a, a >= 1, n >= 0;
    assert(round_up(s.start as int, a) == s.start as int) by (nonlinear_arith)
        requires s.start as int == q * a, a >= 1, q >= 0;
    assert(s.element_stride as int * s.num_elements as int <= 0xFFFF * 0xFF) by (nonlinear_arith)
        requires s.element_stride <= 0xFFFF, s.num_elements <= 0xFF;
    assert(setup_column(s, use_double) == Some(s));
}

/// A column once set up has the component size of its numeric type: one byte for 8-bit
/// integers, two for 16-bit integers, eight for doubles (and for the file's standard float when
/// it stores doubles), four for every other type. With no stored stride its stride is one
/// element's components; with no stored alignment it aligns to the component size, but to at
/// least four bytes; its total is its stride times its elements.
pub proof fn lemma_column_sizes(c: GeomVertexColumn, use_double: bool)
    ensures
        setup_column(c, use_double) matches Some(s) ==> {
            let t = c.numeric_type;
            &&& (t == NumericType::U8 || t == NumericType::I8) ==> s.component_bytes == 1
            &&& (t == NumericType::U16 || t == NumericType::I16) ==> s.component_bytes == 2
            &&& (t == NumericType::U32 || t == NumericType::I32 || t == NumericType::F32 || t
                == NumericType::PackedDCBA || t == NumericType::PackedDABC || t
                == NumericType::PackedUFloat) ==> s.component_bytes == 4
            &&& t == NumericType::F64 ==> s.component_bytes == 8
            &&& t == NumericType::StdFloat ==> s.component_bytes == (if use_double { 8int } else { 4int })
            &&& c.element_stride == 0 ==> s.element_stride == s.component_bytes * c.num_components
            &&& c.column_alignment == 0 ==> s.column_alignment == (if s.component_bytes > 4 {
                s.component_bytes
            } else {
                4
            })
            &&& s.total_bytes == s.element_stride * s.num_elements
        },
{
    if let Some(s) = setup_column(c, use_double) {
        assert(s.component_bytes * c.num_components <= 8 * 0xFF) by (nonlinear_arith)
            requires s.component_bytes <= 8, c.num_components <= 0xFF;
        assert(s.element_stride as int * s.num_elements as int <= 0xFFFF * 0xFF) by (nonlinear_arith)
            requires s.element_stride <= 0xFFFF, s.num_elements <= 0xFF;
    }
}

impl GeomVertexColumn {
    /// Fills in the derived fields (see `setup_column`); a column whose aligned start does not
    /// fit in 16 bits is left as it was.
    pub fn setup(&mut self, loader: &BinaryAsset) -> (r: Result<(), Error>)
        ensures
            match setup_column(*old(self), loader.header.use_double) {
                Some(c) => r is Ok && *final(self) == c,
                None => r == Err::<(), Error>(Error::Overflow) && *final(self) == *old(self),
            },
    {
        let numeric_type = if self.numeric_type == NumericType::StdFloat {
            if loader.header.use_double {
                NumericType::F64
            } else {
                NumericType::F32
            }
        } else {
            self.numeric_type
        };
        let (component_bytes, packed): (u8, u16) = match numeric_type {
            NumericType::U8 | NumericType::I8 => (1, 1),
            NumericType::U16 | NumericType::I16 => (2, 1),
            NumericType::PackedDCBA | NumericType::PackedDABC => (4, 4),
            NumericType::F64 => (8, 1),
            NumericType::PackedUFloat => (4, 3),
            _ => (4, 1),
        };
        let num_components = self.num_components;
        assert(num_components as u16 * packed <= 0xFFFF) by (nonlinear_arith)
            requires num_components <= 0xFF, packed <= 4;
        let num_values: u16 = num_components as u16 * packed;
        let num_elements = if self.num_elements == 0 {
            // Matrices are assumed to be square.
            if self.contents == Contents::Matrix {
                num_components
            } else {
                1
            }
        } else {
            self.num_elements
        };
        let column_alignment = if self.column_alignment < 1 {
            if component_bytes > VERTEX_COLUMN_ALIGNMENT {
                component_bytes
            } else {
                VERTEX_COLUMN_ALIGNMENT
            }
        } else {
            self.column_alignment
        };
        let start = round_up_u32(self.start as u32, column_alignment as u32);
        if start > 0xFFFF {
            return Err(Error::Overflow);
        }
        let element_stride: u16 = if self.element_stride < 1 {
            assert(component_bytes as u16 * num_components as u16 <= 0xFFFF) by (nonlinear_arith)
                requires component_bytes <= 0xFF, num_components <= 0xFF;
            component_bytes as u16 * num_components as u16
        } else {
            self.element_stride
        };
        assert(element_stride as u32 * num_elements as u32 <= 0xFFFF_FFFF) by (nonlinear_arith)
            requires element_stride <= 0xFFFF, num_elements <= 0xFF;
        let total_bytes = element_stride as u32 * num_elements as u32;
        *self = GeomVertexColumn {
            name_ref: self.name_ref,
            num_components,
            numeric_type,
            contents: self.contents,
            start: start as u16,
            column_alignment,
            num_elements,
            element_stride,
            num_values,
            component_bytes,
            total_bytes,
        };
        Ok(())
    }
}

/// Reads a column: name pointer, component count, numeric type, contents, start and, from
/// BAM 6.29 on, alignment (one before); then `setup_column` fills in the rest.
pub open spec fn sp_column(a: AssetView, d: DgView) -> PR<GeomVertexColumn> {
    match sp_ref(a, d) {
        Err(e) => Err(e),
        Ok((name_ref, a, d)) => match lift(dg_u8(d), a) {
            Err(e) => Err(e),
            Ok((num_components, a, d)) => match lift(dg_u8(d), a) {
                Err(e) => Err(e),
                Ok((t, a, d)) => match lift(dg_u8(d), a) {
                    Err(e) => Err(e),
                    Ok((c, a, d)) => match lift(dg_u16(d), a) {
                        Err(e) => Err(e),
                        Ok((start, a, d)) => {
                            let align: PR<u8> = if a.header.version.minor >= 29 {
                                lift(dg_u8(d), a)
                            } else {
                                Ok((1u8, a, d))
                            };
                            match align {
                                Err(e) => Err(e),
                                Ok((column_alignment, a, d)) => {
                                    let raw = GeomVertexColumn {
                                        name_ref,
                                        num_components,
                                        numeric_type: NumericType::from_byte(t),
                                        contents: Contents::from_byte(c),
                                        start,
                                        column_alignment,
                                        num_elements: 0,
                                        element_stride: 0,
                                        num_values: 0,
                                        component_bytes: 0,
                                        total_bytes: 0,
                                    };
                                    match setup_column(raw, a.header.use_double) {
                                        None => Err(Error::Overflow),
                                        Some(col) => Ok((col, a, d)),
                                    }
                                },
                            }
                        },
                    },
                },
            },
        },
    }
}

/// `sp_column` as a list item.
pub open spec fn column_item() -> spec_fn(AssetView, DgView) -> PR<GeomVertexColumn> {
    |a: AssetView, d: DgView| sp_column(a, d)
}

impl GeomVertexColumn {
    pub fn create(loader: &mut BinaryAsset, data: &mut Datagram) -> (r: Result<Self, Error>)
        requires
            old(data).wf(),
        ensures
            final(loader).header == old(loader).header,
            final(data).wf(),
            outcome(r, sp_column(old(loader)@, old(data)@), final(loader)@, final(data)@),
    {
        let name_ref = match loader.read_ref(data) {
            Ok(p) => p,
            Err(e) => return Err(e),
        };
        let num_components = match data.read_u8() {
            Ok(v) => v,
            Err(e) => return Err(Error::DataError(e)),
        };
        let numeric_type = match data.read_u8() {
            Ok(b) => NumericType::from_u8(b),
            Err(e) => return Err(Error::DataError(e)),
        };
        let contents = match data.read_u8() {
            Ok(b) => Contents::from_u8(b),
            Err(e) => return Err(Error::DataError(e)),
        };
        let start = match data.read_u16() {
            Ok(v) => v,
            Err(e) => return Err(Error::DataError(e)),
        };
        let column_alignment = if loader.get_minor_version() >= 29 {
            match data.read_u8() {
                Ok(v) => v,
                Err(e) => return Err(Error::DataError(e)),
            }
        } else {
            1
        };
        let mut column = GeomVertexColumn {
            name_ref,
            num_components,
            numeric_type,
            contents,
            start,
            column_alignment,
            num_elements: 0,
            element_stride: 0,
            num_values: 0,
            component_bytes: 0,
            total_bytes: 0,
        };
        match column.setup(loader) {
            Ok(()) => Ok(column),
            Err(e) => Err(e),
        }
    }
}

/// The abstract value of a GeomVertexArrayFormat.
pub struct GeomVertexArrayFormatView {
    pub stride: u16,
    pub total_bytes: u16,
    pub pad_to: u8,
    pub divisor: u16,
    pub num_columns: u16,
    pub columns: Seq<GeomVertexColumn>,
}

/// The layout of one vertex array.
pub struct GeomVertexArrayFormat {
    pub stride: u16,
    pub total_bytes: u16,
    pub pad_to: u8,
    pub divisor: u16,
    pub num_columns: u16,
    pub columns: Vec<GeomVertexColumn>,
}

impl View for GeomVertexArrayFormat {
    type V = GeomVertexArrayFormatView;

    open spec fn view(&self) -> GeomVertexArrayFormatView {
        GeomVertexArrayFormatView {
            stride: self.stride,
            total_bytes: self.total_bytes,
            pad_to: self.pad_to,
            divisor: self.divisor,
            num_columns: self.num_columns,
            columns: self.columns@,
        }
    }
}

/// Reads a GeomVertexArrayFormat: stride, total bytes, padding, a divisor after BAM 6.36 (zero
/// before), and a 16-bit count of columns.
pub open spec fn sp_array_format(a: AssetView, d: DgView) -> PR<GeomVertexArrayFormatView> {
    match lift(dg_u16(d), a) {
        Err(e) => Err(e),
        Ok((stride, a, d)) => match lift(dg_u16(d), a) {
            Err(e) => Err(e),
            Ok((total_bytes, a, d)) => match lift(dg_u8(d), a) {
                Err(e) => Err(e),
                Ok((pad_to, a, d)) => {
                    let div: PR<u16> = if a.header.version.minor > 36 {
                        lift(dg_u16(d), a)
                    } else {
                        Ok((0u16, a, d))
                    };
                    match div {
                        Err(e) => Err(e),
                        Ok((divisor, a, d)) => match lift(dg_u16(d), a) {
                            Err(e) => Err(e),
                            Ok((num_columns, a, d)) => match sp_repeat(column_item(), a, d, num_columns as nat) {
                                Err(e) => Err(e),
                                Ok((columns, a, d)) => Ok(
                                    (
                                        GeomVertexArrayFormatView {
                                            stride,
                                            total_bytes,
                                            pad_to,
                                            divisor,
                                            num_columns,
                                            columns,
                                        },
                                        a,
                                        d,
                                    ),
                                ),
                            },
                        },
                    }
                },
            },
        },
    }
}

impl GeomVertexArrayFormat {
    pub fn create(loader: &mut BinaryAsset, data: &mut Datagram) -> (r: Result<Self, Error>)
        requires
            old(data).wf(),
        ensures
            final(loader).header == old(loader).header,
            final(data).wf(),
            outcome(r, sp_array_format(old(loader)@, old(data)@), final(loader)@, final(data)@),
    {
        let stride = match data.read_u16() {
            Ok(v) => v,
            Err(e) => return Err(Error::DataError(e)),
        };
        let total_bytes = match data.read_u16() {
            Ok(v) => v,
            Err(e) => return Err(Error::DataError(e)),
        };
        let pad_to = match data.read_u8() {
            Ok(v) => v,
            Err(e) => return Err(Error::DataError(e)),
        };
        let divisor = if loader.get_minor_version() > 36 {
            match data.read_u16() {
                Ok(v) => v,
                Err(e) => return Err(Error::DataError(e)),
            }
        } else {
            0
        };
        let num_columns = match data.read_u16() {
            Ok(v) => v,
            Err(e) => return Err(Error::DataError(e)),
        };
        let ghost a0 = loader@;
        let ghost d0 = data@;
        let mut columns: Vec<GeomVertexColumn> = Vec::new();
        let mut i: u16 = 0;
        while i < num_columns
            invariant
                loader.header == old(loader).header,
                data.wf(),
                i <= num_columns,
                sp_array_format(old(loader)@, old(data)@) == match sp_repeat(column_item(), a0, d0, num_columns as nat) {
                    Err(e) => Err(e),
                    Ok((columns, a, d)) => Ok(
                        (GeomVertexArrayFormatView { stride, total_bytes, pad_to, divisor, num_columns, columns }, a, d),
                    ),
                },
                sp_repeat(column_item(), a0, d0, i as nat) == Ok::<(Seq<GeomVertexColumn>, AssetView, DgView), Error>((columns@, loader@, data@)),
            decreases num_columns - i,
        {
            match GeomVertexColumn::create(loader, data) {
                Ok(c) => {
                    columns.push(c);
                },
                Err(e) => {
                    proof {
                        lemma_repeat_err(column_item(), a0, d0, (i + 1) as nat, num_columns as nat);
                    }
                    return Err(e);
                },
            }
            i = i + 1;
        }
        Ok(GeomVertexArrayFormat { stride, total_bytes, pad_to, divisor, num_columns, columns })
    }
}

/// The abstract value of a GeomVertexArrayData.
pub struct GeomVertexArrayDataView {
    pub array_format_ref: u32,
    pub usage_hint: UsageHint,
    pub buffer: Seq<u8>,
}

/// The raw bytes of one vertex array.
pub struct GeomVertexArrayData {
    /// Reference to the associated GeomVertexArrayFormat used to interpret the data
    pub array_format_ref: u32,
    /// Usage hint on how often the data in question will be modified/rendered
    pub usage_hint: UsageHint,
    /// Raw vertex data, stored as a u8 array and interpreted according to the array format
    pub buffer: Vec<u8>,
}

impl View for GeomVertexArrayData {
    type V = GeomVertexArrayDataView;

    open spec fn view(&self) -> GeomVertexArrayDataView {
        GeomVertexArrayDataView {
            array_format_ref: self.array_format_ref,
            usage_hint: self.usage_hint,
            buffer: self.buffer@,
        }
    }
}

/// Reads a GeomVertexArrayData: its format, the usage hint, then from BAM 6.8 on a 32-bit size
/// and that many bytes (earlier files store a pointer to an array, which is not supported).
/// Vertex data in big-endian files is not supported either.
pub open spec fn sp_array_data(a: AssetView, d: DgView) -> PR<GeomVertexArrayDataView> {
    match sp_ref(a, d) {
        Err(e) => Err(e),
        Ok((array_format_ref, a, d)) => match lift(dg_u8(d), a) {
            Err(e) => Err(e),
            Ok((u, a, d)) => if a.header.version.minor >= 8 {
                match lift(dg_u32(d), a) {
                    Err(e) => Err(e),
                    Ok((size, a, d)) => if d.pos + size > d.data.len() {
                        Err(Error::DataError(DataError::EndOfFile))
                    } else if d.endian != Endian::Little {
                        Err(Error::Unimplemented)
                    } else {
                        Ok(
                            (
                                GeomVertexArrayDataView {
                                    array_format_ref,
                                    usage_hint: UsageHint::from_byte(u),
                                    buffer: d.data.subrange(d.pos, d.pos + size),
                                },
                                a,
                                d.skip(size as int),
                            ),
                        )
                    },
                }
            } else {
                match sp_pta_id(a, d) {
                    Err(e) => Err(e),
                    Ok(_) => Err(Error::Unimplemented),
                }
            },
        },
    }
}

impl GeomVertexArrayData {
    pub fn create(loader: &mut BinaryAsset, data: &mut Datagram) -> (r: Result<Self, Error>)
        requires
            old(data).wf(),
        ensures
            final(loader).header == old(loader).header,
            final(data).wf(),
            outcome(r, sp_array_data(old(loader)@, old(data)@), final(loader)@, final(data)@),
    {
        let array_format_ref = match loader.read_ref(data) {
            Ok(p) => p,
            Err(e) => return Err(e),
        };
        let usage_hint = match data.read_u8() {
            Ok(b) => UsageHint::from_u8(b),
            Err(e) => return Err(Error::DataError(e)),
        };
        let buffer = if loader.get_minor_version() >= 8 {
            let size = match data.read_u32() {
                Ok(v) => v,
                Err(e) => return Err(Error::DataError(e)),
            };
            match data.read_bytes(size as usize) {
                Ok(b) => b,
                Err(e) => return Err(Error::DataError(e)),
            }
        } else {
            match loader.read_pta_id(data) {
                Ok(_) => return Err(Error::Unimplemented),
                Err(e) => return Err(e),
            }
        };
        if data.endian() != Endian::default_order() {
            return Err(Error::Unimplemented);
        }
        Ok(GeomVertexArrayData { array_format_ref, usage_hint, buffer })
    }
}

/// The abstract value of a GeomVertexData.
pub struct GeomVertexDataView {
    pub name: Seq<char>,
    pub format_ref: u32,
    pub usage_hint: UsageHint,
    pub array_refs: Seq<u32>,
    pub transform_table_ref: Option<u32>,
    pub transform_blend_table_ref: Option<u32>,
    pub slider_table_ref: Option<u32>,
}

/// Vertex data: a format and the arrays that hold the vertices.
pub struct GeomVertexData {
    pub name: String,
    /// Reference to the associated GeomVertexFormat that defines the current data
    pub format_ref: u32,
    pub usage_hint: UsageHint,
    /// References to all GeomVertexArrayData
    pub array_refs: Vec<u32>,
    pub transform_table_ref: Option<u32>,
    pub transform_blend_table_ref: Option<u32>,
    pub slider_table_ref: Option<u32>,
}

impl View for GeomVertexData {
    type V = GeomVertexDataView;

    open spec fn view(&self) -> GeomVertexDataView {
        GeomVertexDataView {
            name: self.name@,
            format_ref: self.format_ref,
            usage_hint: self.usage_hint,
            array_refs: self.array_refs@,
            transform_table_ref: self.transform_table_ref,
            transform_blend_table_ref: self.transform_blend_table_ref,
            slider_table_ref: self.slider_table_ref,
        }
    }
}

/// The three optional table pointers that end a GeomVertexData.
pub open spec fn sp_tables(a: AssetView, d: DgView) -> PR<(Option<u32>, Option<u32>, Option<u32>)> {
    match sp_pointer(a, d) {
        Err(e) => Err(e),
        Ok((t, a, d)) => match sp_pointer(a, d) {
            Err(e) => Err(e),
            Ok((b, a, d)) => match sp_pointer(a, d) {
                Err(e) => Err(e),
                Ok((s, a, d)) => Ok(((t, b, s), a, d)),
            },
        },
    }
}

/// Reads a GeomVertexData: name, format, usage hint, a 16-bit count of arrays, then the
/// transform table, transform blend table and slider table pointers.
pub open spec fn sp_vertex_data(a: AssetView, d: DgView) -> PR<GeomVertexDataView> {
    match lift(dg_string(d), a) {
        Err(e) => Err(e),
        Ok((name, a, d)) => match sp_ref(a, d) {
            Err(e) => Err(e),
            Ok((format_ref, a, d)) => match lift(dg_u8(d), a) {
                Err(e) => Err(e),
                Ok((u, a, d)) => match lift(dg_u16(d), a) {
                    Err(e) => Err(e),
                    Ok((n, a, d)) => match sp_repeat(ref_item(), a, d, n as nat) {
                        Err(e) => Err(e),
                        Ok((array_refs, a, d)) => match sp_tables(a, d) {
                            Err(e) => Err(e),
                            Ok(((transform_table_ref, transform_blend_table_ref, slider_table_ref), a, d)) => Ok(
                                (
                                    GeomVertexDataView {
                                        name,
                                        format_ref,
                                        usage_hint: UsageHint::from_byte(u),
                                        array_refs,
                                        transform_table_ref,
                                        transform_blend_table_ref,
                                        slider_table_ref,
                                    },
                                    a,
                                    d,
                                ),
                            ),
                        },
                    },
                },
            },
        },
    }
}

impl GeomVertexData {
    pub fn create(loader: &mut BinaryAsset, data: &mut Datagram) -> (r: Result<Self, Error>)
        requires
            old(data).wf(),
        ensures
            final(loader).header == old(loader).header,
            final(data).wf(),
            outcome(r, sp_vertex_data(old(loader)@, old(data)@), final(loader)@, final(data)@),
    {
        let name = match data.read_string() {
            Ok(s) => s,
            Err(e) => return Err(Error::DataError(e)),
        };
        let format_ref = match loader.read_ref(data) {
            Ok(p) => p,
            Err(e) => return Err(e),
        };
        let usage_hint = match data.read_u8() {
            Ok(b) => UsageHint::from_u8(b),
            Err(e) => return Err(Error::DataError(e)),
        };
        let num_arrays = match data.read_u16() {
            Ok(v) => v,
            Err(e) => return Err(Error::DataError(e)),
        };
        let array_refs = match loader.read_refs(data, num_arrays as u32) {
            Ok(v) => v,
            Err(e) => return Err(e),
        };
        let transform_table_ref = match loader.read_pointer(data) {
            Ok(p) => p,
            Err(e) => return Err(e),
        };
        let transform_blend_table_ref = match loader.read_pointer(data) {
            Ok(p) => p,
            Err(e) => return Err(e),
        };
        let slider_table_ref = match loader.read_pointer(data) {
            Ok(p) => p,
            Err(e) => return Err(e),
        };
        Ok(GeomVertexData {
            name,
            format_ref,
            usage_hint,
            array_refs,
            transform_table_ref,
            transform_blend_table_ref,
            slider_table_ref,
        })
    }
}

/// How the vertices of a format are animated.
#[derive(Clone, Copy, Debug, PartialEq, Eq, Structural)]
pub struct GeomVertexAnimationSpec {
    pub animation_type: AnimationType,
    pub num_transforms: u16,
    pub indexed_transforms: bool,
}

impl View for GeomVertexAnimationSpec {
    type V = GeomVertexAnimationSpec;

    open spec fn view(&self) -> GeomVertexAnimationSpec {
        *self
    }
}

/// Reads a GeomVertexAnimationSpec: the animation type, the number of transforms and whether
/// they are indexed.
pub open spec fn sp_anim_spec(a: AssetView, d: DgView) -> PR<GeomVertexAnimationSpec> {
    match lift(dg_u8(d), a) {
        Err(e) => Err(e),
        Ok((t, a, d)) => match lift(dg_u16(d), a) {
            Err(e) => Err(e),
            Ok((num_transforms, a, d)) => match lift(dg_bool(d), a) {
                Err(e) => Err(e),
                Ok((indexed_transforms, a, d)) => Ok(
                    (
                        GeomVertexAnimationSpec {
                            animation_type: AnimationType::from_byte(t),
                            num_transforms,
                            indexed_transforms,
                        },
                        a,
                        d,
                    ),
                ),
            },
        },
    }
}

impl GeomVertexAnimationSpec {
    pub fn create(loader: &mut BinaryAsset, data: &mut Datagram) -> (r: Result<Self, Error>)
        requires
            old(data).wf(),
        ensures
            final(loader).header == old(loader).header,
            final(data).wf(),
            outcome(r, sp_anim_spec(old(loader)@, old(data)@), final(loader)@, final(data)@),
    {
        let animation_type = match data.read_u8() {
            Ok(b) => AnimationType::from_u8(b),
            Err(e) => return Err(Error::DataError(e)),
        };
        let num_transforms = match data.read_u16() {
            Ok(v) => v,
            Err(e) => return Err(Error::DataError(e)),
        };
        let indexed_transforms = match data.read_bool() {
            Ok(v) => v,
            Err(e) => return Err(Error::DataError(e)),
        };
        Ok(GeomVertexAnimationSpec { animation_type, num_transforms, indexed_transforms })
    }
}

/// The abstract value of a GeomVertexFormat.
pub struct GeomVertexFormatView {
    pub animation: GeomVertexAnimationSpec,
    pub array_refs: Seq<u32>,
}

/// The format of vertex data: its animation and the formats of its arrays.
pub struct GeomVertexFormat {
    pub animation: GeomVertexAnimationSpec,
    /// References to all GeomVertexArrayFormat data
    pub array_refs: Vec<u32>,
}

impl View for GeomVertexFormat {
    type V = GeomVertexFormatView;

    open spec fn view(&self) -> GeomVertexFormatView {
        GeomVertexFormatView { animation: self.animation, array_refs: self.array_refs@ }
    }
}

/// Reads a GeomVertexFormat: the animation spec, then a 16-bit count of array formats.
pub open spec fn sp_vertex_format(a: AssetView, d: DgView) -> PR<GeomVertexFormatView> {
    match sp_anim_spec(a, d) {
        Err(e) => Err(e),
        Ok((animation, a, d)) => match lift(dg_u16(d), a) {
            Err(e) => Err(e),
            Ok((n, a, d)) => match sp_repeat(ref_item(), a, d, n as nat) {
                Err(e) => Err(e),
                Ok((array_refs, a, d)) => Ok((GeomVertexFormatView { animation, array_refs }, a, d)),
            },
        },
    }
}

impl GeomVertexFormat {
    pub fn create(loader: &mut BinaryAsset, data: &mut Datagram) -> (r: Result<Self, Error>)
        requires
            old(data).wf(),
        ensures
            final(loader).header == old(loader).header,
            final(data).wf(),
            outcome(r, sp_vertex_format(old(loader)@, old(data)@), final(loader)@, final(data)@),
    {
        let animation = match GeomVertexAnimationSpec::create(loader, data) {
            Ok(a) => a,
            Err(e) => return Err(e),
        };
        let num_arrays = match data.read_u16() {
            Ok(v) => v,
            Err(e) => return Err(Error::DataError(e)),
        };
        let array_refs = match loader.read_refs(data, num_arrays as u32) {
            Ok(v) => v,
            Err(e) => return Err(e),
        };
        Ok(GeomVertexFormat { animation, array_refs })
    }
}

/// The abstract value of an InternalName.
pub struct InternalNameView {
    pub name: Seq<char>,
}

/// A name shared by reference, such as the name of a vertex column.
pub struct InternalName {
    pub name: String,
}

impl View for InternalName {
    type V = InternalNameView;

    open spec fn view(&self) -> InternalNameView {
        InternalNameView { name: self.name@ }
    }
}

/// Reads an InternalName: a string.
pub open spec fn sp_internal_name(a: AssetView, d: DgView) -> PR<InternalNameView> {
    match lift(dg_string(d), a) {
        Err(e) => Err(e),
        Ok((name, a, d)) => Ok((InternalNameView { name }, a, d)),
    }
}

impl InternalName {
    pub fn create(loader: &mut BinaryAsset, data: &mut Datagram) -> (r: Result<Self, Error>)
        requires
            old(data).wf(),
        ensures
            final(loader).header == old(loader).header,
            final(data).wf(),
            outcome(r, sp_internal_name(old(loader)@, old(data)@), final(loader)@, final(data)@),
    {
        match data.read_string() {
            Ok(name) => Ok(InternalName { name }),
            Err(e) => Err(Error::DataError(e)),
        }
    }
}

} // verus!
