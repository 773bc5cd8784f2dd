//! Building a scene from the objects of a loaded Binary Asset: the mesh data of a Geom (its
//! topology, its vertex indices and the positions and texture coordinates of its vertices, kept
//! as the bits of the single-precision floats stored), the render effects that apply to a node,
//! and the texture sampling modes a renderer supports.

use vstd::prelude::*;

use crate::bam::{AssetView, BinaryAsset};
use crate::bytes::{take_u32, u16_of, DataError, Endian, Reader};
use crate::nodes::dispatch::name_is;
use crate::nodes::enums::{Contents, FilterType, NumericType, WrapMode};
use crate::nodes::geom::{
    Geom, GeomPrimitive, GeomVertexArrayData, GeomVertexArrayDataView, GeomVertexArrayFormat,
    GeomVertexArrayFormatView, GeomVertexColumn, GeomVertexData, GeomVertexDataView,
    GeomVertexFormat, GeomVertexFormatView, GeomView, InternalName, InternalNameView,
};
use crate::nodes::storage::{NodeStorage, NodeView, StoredNode};

verus! {

/// The object types that building a scene looks up.
#[derive(Clone, Copy, Debug, PartialEq, Eq, Structural)]
pub enum NodeType {
    Geom,
    GeomVertexData,
    GeomVertexFormat,
    GeomPrimitive,
    GeomVertexArrayData,
    GeomVertexArrayFormat,
    InternalName,
    RenderEffects,
    RenderState,
    ModelNode,
    PartGroup,
    AnimGroup,
    TransformBlendTable,
}

/// Errors when building a scene.
#[derive(Clone, Copy, Debug, PartialEq, Eq, Structural)]
pub enum Panda3DError {
    /// The object at `node_index` is missing or not of the type needed.
    WrongNode { node_index: usize, node_type: NodeType },
    /// The object at `node_index` holds data that cannot be turned into a mesh.
    UnexpectedData { node_index: usize },
    /// Reading vertex data went past its end.
    DataError(DataError),
    /// A texture uses a wrap mode that has no equivalent.
    UnsupportedWrap { wrap_mode: WrapMode },
    /// The scene graph nests deeper than the walk's depth limit at object `node_index`.
    TooDeep { node_index: usize },
}

/// How the indices of a mesh form triangles.
#[derive(Clone, Copy, Debug, PartialEq, Eq, Structural)]
pub enum Topology {
    TriangleList,
    TriangleStrip,
}

/// Vertex indices.
pub enum Indices {
    U16(Vec<u16>),
    U32(Vec<u32>),
}

/// The abstract value of vertex indices.
pub enum IndicesView {
    U16(Seq<u16>),
    U32(Seq<u32>),
}

impl View for Indices {
    type V = IndicesView;

    open spec fn view(&self) -> IndicesView {
        match self {
            Indices::U16(v) => IndicesView::U16(v@),
            Indices::U32(v) => IndicesView::U32(v@),
        }
    }
}

/// The mesh data of a Geom. Positions are three float bit patterns per vertex, texture
/// coordinates two as stored (the second, v, counts from the bottom of the texture).
pub struct MeshData {
    pub topology: Topology,
    pub indices: Indices,
    pub positions: Option<Vec<(u32, u32, u32)>>,
    pub texcoords: Option<Vec<(u32, u32)>>,
}

/// The abstract value of mesh data.
pub struct MeshView {
    pub topology: Topology,
    pub indices: IndicesView,
    pub positions: Option<Seq<(u32, u32, u32)>>,
    pub texcoords: Option<Seq<(u32, u32)>>,
}

pub open spec fn opt_view<T: View>(o: Option<Vec<T>>) -> Option<Seq<T>> {
    match o {
        Some(v) => Some(v@),
        None => None,
    }
}

impl View for MeshData {
    type V = MeshView;

    open spec fn view(&self) -> MeshView {
        MeshView {
            topology: self.topology,
            indices: self.indices@,
            positions: opt_view(self.positions),
            texcoords: opt_view(self.texcoords),
        }
    }
}

/// The object at index `i`, if there is one.
pub open spec fn node_at(nodes: Seq<NodeView>, i: int) -> Option<NodeView> {
    if 0 <= i < nodes.len() {
        Some(nodes[i])
    } else {
        None
    }
}

/// The Geom at index `i`, if that object is one.
pub open spec fn geom_at(nodes: Seq<NodeView>, i: int) -> Option<GeomView> {
    match node_at(nodes, i) {
        Some(NodeView::Geom(v)) => Some(v),
        _ => None,
    }
}

/// The GeomVertexData at index `i`, if that object is one.
pub open spec fn vertex_data_at(nodes: Seq<NodeView>, i: int) -> Option<GeomVertexDataView> {
    match node_at(nodes, i) {
        Some(NodeView::GeomVertexData(v)) => Some(v),
        _ => None,
    }
}

/// The GeomVertexFormat at index `i`, if that object is one.
pub open spec fn vertex_format_at(nodes: Seq<NodeView>, i: int) -> Option<GeomVertexFormatView> {
    match node_at(nodes, i) {
        Some(NodeView::GeomVertexFormat(v)) => Some(v),
        _ => None,
    }
}

/// The GeomPrimitive at index `i`, if that object is one.
pub open spec fn primitive_at(nodes: Seq<NodeView>, i: int) -> Option<GeomPrimitive> {
    match node_at(nodes, i) {
        Some(NodeView::GeomPrimitive(v)) => Some(v),
        _ => None,
    }
}

/// The GeomVertexArrayData at index `i`, if that object is one.
pub open spec fn array_data_at(nodes: Seq<NodeView>, i: int) -> Option<GeomVertexArrayDataView> {
    match node_at(nodes, i) {
        Some(NodeView::GeomVertexArrayData(v)) => Some(v),
        _ => None,
    }
}

/// The GeomVertexArrayFormat at index `i`, if that object is one.
pub open spec fn array_format_at(nodes: Seq<NodeView>, i: int) -> Option<GeomVertexArrayFormatView> {
    match node_at(nodes, i) {
        Some(NodeView::GeomVertexArrayFormat(v)) => Some(v),
        _ => None,
    }
}

/// The InternalName at index `i`, if that object is one.
pub open spec fn name_at(nodes: Seq<NodeView>, i: int) -> Option<InternalNameView> {
    match node_at(nodes, i) {
        Some(NodeView::InternalName(v)) => Some(v),
        _ => None,
    }
}

impl NodeStorage {
    /// The Geom at index `i` (see `geom_at`).
    pub fn get_geom(&self, i: usize) -> (r: Option<&Geom>)
        ensures
            match geom_at(self@, i as int) {
                Some(v) => r matches Some(x) && x@ == v,
                None => r is None,
            },
    {
        match self.get(i) {
            Some(StoredNode::Geom(n)) => Some(n),
            _ => None,
        }
    }

    /// The GeomVertexData at index `i` (see `vertex_data_at`).
    pub fn get_vertex_data(&self, i: usize) -> (r: Option<&GeomVertexData>)
        ensures
            match vertex_data_at(self@, i as int) {
                Some(v) => r matches Some(x) && x@ == v,
                None => r is None,
            },
    {
        match self.get(i) {
            Some(StoredNode::GeomVertexData(n)) => Some(n),
            _ => None,
        }
    }

    /// The GeomVertexFormat at index `i` (see `vertex_format_at`).
    pub fn get_vertex_format(&self, i: usize) -> (r: Option<&GeomVertexFormat>)
        ensures
            match vertex_format_at(self@, i as int) {
                Some(v) => r matches Some(x) && x@ == v,
                None => r is None,
            },
    {
        match self.get(i) {
            Some(StoredNode::GeomVertexFormat(n)) => Some(n),
            _ => None,
        }
    }

    /// The GeomPrimitive at index `i` (see `primitive_at`).
    pub fn get_primitive(&self, i: usize) -> (r: Option<&GeomPrimitive>)
        ensures
            match primitive_at(self@, i as int) {
                Some(v) => r matches Some(x) && x@ == v,
                None => r is None,
            },
    {
        match self.get(i) {
            Some(StoredNode::GeomPrimitive(n)) => Some(n),
            _ => None,
        }
    }

    /// The GeomVertexArrayData at index `i` (see `array_data_at`).
    pub fn get_array_data(&self, i: usize) -> (r: Option<&GeomVertexArrayData>)
        ensures
            match array_data_at(self@, i as int) {
                Some(v) => r matches Some(x) && x@ == v,
                None => r is None,
            },
    {
        match self.get(i) {
            Some(StoredNode::GeomVertexArrayData(n)) => Some(n),
            _ => None,
        }
    }

    /// The GeomVertexArrayFormat at index `i` (see `array_format_at`).
    pub fn get_array_format(&self, i: usize) -> (r: Option<&GeomVertexArrayFormat>)
        ensures
            match array_format_at(self@, i as int) {
                Some(v) => r matches Some(x) && x@ == v,
                None => r is None,
            },
    {
        match self.get(i) {
            Some(StoredNode::GeomVertexArrayFormat(n)) => Some(n),
            _ => None,
        }
    }

    /// The InternalName at index `i` (see `name_at`).
    pub fn get_name(&self, i: usize) -> (r: Option<&InternalName>)
        ensures
            match name_at(self@, i as int) {
                Some(v) => r matches Some(x) && x@ == v,
                None => r is None,
            },
    {
        match self.get(i) {
            Some(StoredNode::InternalName(n)) => Some(n),
            _ => None,
        }
    }
}

/// Triangle strips where the rendering flags say so (bit 10), else triangle lists.
pub open spec fn sp_topology(g: GeomView) -> Topology {
    if g.geom_rendering.bits & 0x400 != 0 {
        Topology::TriangleStrip
    } else {
        Topology::TriangleList
    }
}

/// The 16-bit little-endian values of a buffer; an odd last byte is left out.
pub open spec fn u16s(buf: Seq<u8>) -> Seq<u16> {
    Seq::new(buf.len() / 2, |i: int| u16_of(Endian::Little, buf[2 * i], buf[2 * i + 1]))
}

/// The vertex indices of a primitive. With a vertex array, its one index column must hold
/// 16-bit values named "index", and the array's bytes are the indices; without one the vertices
/// `first_vertex` onwards are used in order, as many as the primitive has (a count of -1 takes
/// the single vertex end stored in its ends array).
pub open spec fn sp_indices(a: AssetView, p: GeomPrimitive, prim_ref: u32) -> Result<IndicesView, Panda3DError> {
    match p.vertices_ref {
        Some(index) => match array_data_at(a.nodes, index as int) {
            None => Err(Panda3DError::WrongNode { node_index: index as usize, node_type: NodeType::GeomVertexArrayData }),
            Some(ad) => match array_format_at(a.nodes, ad.array_format_ref as int) {
                None => Err(
                    Panda3DError::WrongNode {
                        node_index: ad.array_format_ref as usize,
                        node_type: NodeType::GeomVertexArrayFormat,
                    },
                ),
                Some(af) => if af.columns.len() == 0 {
                    Err(Panda3DError::UnexpectedData { node_index: ad.array_format_ref as usize })
                } else {
                    let c = af.columns[0];
                    match name_at(a.nodes, c.name_ref as int) {
                        None => Err(Panda3DError::WrongNode { node_index: c.name_ref as usize, node_type: NodeType::InternalName }),
                        Some(n) => if c.numeric_type == NumericType::U16 && c.contents == Contents::Index && n.name
                            == "index"@ {
                            Ok(IndicesView::U16(u16s(ad.buffer)))
                        } else {
                            Err(Panda3DError::UnexpectedData { node_index: c.name_ref as usize })
                        },
                    }
                },
            },
        },
        None => {
            let start = p.first_vertex as u32;
            let end: Option<u32> = if p.num_vertices == -1 {
                match p.ends_ref {
                    Some(r) => if r < a.arrays.len() && a.arrays[r as int].len() == 1 {
                        Some(a.arrays[r as int][0])
                    } else {
                        None
                    },
                    None => None,
                }
            } else {
                Some(p.num_vertices as u32)
            };
            match end {
                None => Err(Panda3DError::UnexpectedData { node_index: prim_ref as usize }),
                Some(e) => if start + e > u32::MAX {
                    Err(Panda3DError::UnexpectedData { node_index: prim_ref as usize })
                } else {
                    Ok(IndicesView::U32(Seq::new(e as nat, |i: int| (start + i) as u32)))
                },
            }
        },
    }
}

/// Stored 16-bit indices are little-endian: where a primitive's indices come from its vertex
/// array, there is one index per two bytes of the array's buffer, and index `i` is the byte at
/// `2i` plus 256 times the byte at `2i + 1`.
pub proof fn lemma_indices_little_endian(a: AssetView, p: GeomPrimitive, prim_ref: u32)
    ensures
        sp_indices(a, p, prim_ref) matches Ok(IndicesView::U16(ix)) ==> match p.vertices_ref {
            Some(r) => match array_data_at(a.nodes, r as int) {
                Some(ad) => ix.len() == ad.buffer.len() / 2 && forall|i: int|
                    0 <= i < ix.len() ==> #[trigger] ix[i] as int == ad.buffer[2 * i] as int + 256 * ad.buffer[2 * i + 1] as int,
                None => false,
            },
            None => false,
        },
{
}

/// The 32-bit little-endian value at `p` of `buf`.
pub open spec fn le32(buf: Seq<u8>, p: int) -> u32 {
    take_u32(Endian::Little, buf, p).unwrap()
}

/// Reads `num` rows of three 32-bit values, row `n` at `start + stride * n`; past the end of
/// the buffer is `EndOfFile`.
pub open spec fn rows3(buf: Seq<u8>, start: int, stride: int, num: nat) -> Result<Seq<(u32, u32, u32)>, Panda3DError> {
    if num > 0 && start + stride * (num - 1) + 12 > buf.len() {
        Err(Panda3DError::DataError(DataError::EndOfFile))
    } else {
        Ok(
            Seq::new(
                num,
                |n: int| (le32(buf, start + stride * n), le32(buf, start + stride * n + 4), le32(buf, start + stride * n + 8)),
            ),
        )
    }
}

/// Reads `num` rows of two 32-bit values, row `n` at `start + stride * n`.
pub open spec fn rows2(buf: Seq<u8>, start: int, stride: int, num: nat) -> Result<Seq<(u32, u32)>, Panda3DError> {
    if num > 0 && start + stride * (num - 1) + 8 > buf.len() {
        Err(Panda3DError::DataError(DataError::EndOfFile))
    } else {
        Ok(Seq::new(num, |n: int| (le32(buf, start + stride * n), le32(buf, start + stride * n + 4))))
    }
}

/// Whether a column holds vertex positions the mesh can take: three or four 32-bit floats of
/// point contents.
pub open spec fn is_position_column(c: GeomVertexColumn) -> bool {
    (c.num_components == 3 || c.num_components == 4) && c.numeric_type == NumericType::F32 && c.contents
        == Contents::Point
}

/// Whether a column holds texture coordinates the mesh can take: two 32-bit floats.
pub open spec fn is_texcoord_column(c: GeomVertexColumn) -> bool {
    c.num_components == 2 && c.numeric_type == NumericType::F32 && c.contents == Contents::TexCoord
}

/// The attribute columns read so far: positions and texture coordinates.
pub type Attributes = (Option<Seq<(u32, u32, u32)>>, Option<Seq<(u32, u32)>>);

/// The attributes after the first `k` columns of `af`: a column named "vertex" that holds
/// positions gives the positions, one named "texcoord" that holds texture coordinates gives
/// those (a later such column replaces an earlier one); other columns are passed over.
pub open spec fn sp_columns(
    nodes: Seq<NodeView>,
    buf: Seq<u8>,
    af: GeomVertexArrayFormatView,
    num: nat,
    k: nat,
) -> Result<Attributes, Panda3DError>
    decreases k,
{
    if k == 0 {
        Ok((None, None))
    } else {
        match sp_columns(nodes, buf, af, num, (k - 1) as nat) {
            Err(e) => Err(e),
            Ok((pos, tex)) => {
                let c = af.columns[k - 1];
                match name_at(nodes, c.name_ref as int) {
                    None => Err(Panda3DError::WrongNode { node_index: c.name_ref as usize, node_type: NodeType::InternalName }),
                    Some(n) => if n.name == "vertex"@ && is_position_column(c) {
                        match rows3(buf, c.start as int, af.stride as int, num) {
                            Err(e) => Err(e),
                            Ok(rows) => Ok((Some(rows), tex)),
                        }
                    } else if n.name == "texcoord"@ && is_texcoord_column(c) {
                        match rows2(buf, c.start as int, af.stride as int, num) {
                            Err(e) => Err(e),
                            Ok(rows) => Ok((pos, Some(rows))),
                        }
                    } else {
                        Ok((pos, tex))
                    },
                }
            },
        }
    }
}

/// The positions and texture coordinates of vertex data: its first array read with the first
/// array format of its format, one vertex per `stride` bytes. Vertex data with a transform
/// blend table needs that table, which is not an object this library reads.
pub open spec fn sp_attributes(a: AssetView, data_ref: u32, vd: GeomVertexDataView, vf: GeomVertexFormatView) -> Result<Attributes, Panda3DError> {
    if vd.array_refs.len() == 0 {
        Err(Panda3DError::UnexpectedData { node_index: data_ref as usize })
    } else if vf.array_refs.len() == 0 {
        Err(Panda3DError::UnexpectedData { node_index: vd.format_ref as usize })
    } else {
        match array_data_at(a.nodes, vd.array_refs[0] as int) {
            None => Err(Panda3DError::WrongNode { node_index: vd.array_refs[0] as usize, node_type: NodeType::GeomVertexArrayData }),
            Some(ad) => match array_format_at(a.nodes, vf.array_refs[0] as int) {
                None => Err(Panda3DError::WrongNode { node_index: vf.array_refs[0] as usize, node_type: NodeType::GeomVertexArrayFormat }),
                Some(af) => if af.stride == 0 {
                    Err(Panda3DError::UnexpectedData { node_index: vf.array_refs[0] as usize })
                } else {
                    match sp_columns(a.nodes, ad.buffer, af, (ad.buffer.len() as int / (af.stride as int)) as nat, af.columns.len()) {
                        Err(e) => Err(e),
                        Ok(attrs) => match vd.transform_blend_table_ref {
                            Some(t) => Err(Panda3DError::WrongNode { node_index: t as usize, node_type: NodeType::TransformBlendTable }),
                            None => Ok(attrs),
                        },
                    }
                },
            },
        }
    }
}

/// The mesh data of the Geom `g` of asset `a`: its vertex data, that data's format and its first
/// primitive are looked up, then the indices (see `sp_indices`) and the attributes (see
/// `sp_attributes`) are gathered.
pub open spec fn sp_mesh(a: AssetView, g: GeomView) -> Result<MeshView, Panda3DError> {
    match vertex_data_at(a.nodes, g.data_ref as int) {
        None => Err(Panda3DError::WrongNode { node_index: g.data_ref as usize, node_type: NodeType::GeomVertexData }),
        Some(vd) => match vertex_format_at(a.nodes, vd.format_ref as int) {
            None => Err(Panda3DError::WrongNode { node_index: vd.format_ref as usize, node_type: NodeType::GeomVertexFormat }),
            Some(vf) => match primitive_at(a.nodes, g.primitive_refs[0] as int) {
                None => Err(Panda3DError::WrongNode { node_index: g.primitive_refs[0] as usize, node_type: NodeType::GeomPrimitive }),
                Some(p) => match sp_indices(a, p, g.primitive_refs[0]) {
                    Err(e) => Err(e),
                    Ok(indices) => match sp_attributes(a, g.data_ref, vd, vf) {
                        Err(e) => Err(e),
                        Ok((positions, texcoords)) => Ok(MeshView { topology: sp_topology(g), indices, positions, texcoords }),
                    },
                },
            },
        },
    }
}

/// Once the columns before `k` fail, the columns up to any later point fail the same way.
proof fn lemma_columns_err(nodes: Seq<NodeView>, buf: Seq<u8>, af: GeomVertexArrayFormatView, num: nat, k: nat, n: nat)
    requires
        k <= n,
        sp_columns(nodes, buf, af, num, k) is Err,
    ensures
        sp_columns(nodes, buf, af, num, n) == sp_columns(nodes, buf, af, num, k),
    decreases n - k,
{
    if k < n {
        lemma_columns_err(nodes, buf, af, num, k, (n - 1) as nat);
    }
}

/// The topology of a Geom (see `sp_topology`).
pub fn topology(g: &Geom) -> (t: Topology)
    ensures
        t == sp_topology(g@),
{
    if g.geom_rendering.bits & 0x400 != 0 {
        Topology::TriangleStrip
    } else {
        Topology::TriangleList
    }
}

/// The 32-bit little-endian value at `p`.
fn le32_at(buf: &[u8], p: usize) -> (v: u32)
    requires
        p + 4 <= buf@.len(),
    ensures
        v == le32(buf@, p as int),
{
    crate::bytes::compose_u32(Endian::Little, buf[p], buf[p + 1], buf[p + 2], buf[p + 3])
}

/// The 16-bit little-endian values of a buffer (see `u16s`).
pub fn read_u16s(buf: &[u8]) -> (r: Vec<u16>)
    ensures
        r@ == u16s(buf@),
{
    let len = buf.len();
    let n = len / 2;
    let mut v: Vec<u16> = Vec::new();
    let mut i: usize = 0;
    while i < n
        invariant
            len == buf@.len(),
            n == buf@.len() / 2,
            i <= n,
            v@ =~= Seq::new(i as nat, |k: int| u16_of(Endian::Little, buf@[2 * k], buf@[2 * k + 1])),
        decreases n - i,
    {
        assert(2 * i + 1 < len) by (nonlinear_arith)
            requires i < n, n == len / 2;
        let b0 = buf[2 * i];
        let b1 = buf[2 * i + 1];
        v.push(b0 as u16 + (b1 as u16) * 256);
        i = i + 1;
    }
    v
}

/// Reads rows of three values (see `rows3`).
fn read_rows3(buf: &[u8], start: usize, stride: usize, num: usize) -> (r: Result<Vec<(u32, u32, u32)>, Panda3DError>)
    requires
        stride > 0,
        num as int == buf@.len() as int / (stride as int),
        start <= 0xFFFF,
    ensures
        match rows3(buf@, start as int, stride as int, num as nat) {
            Ok(rows) => r matches Ok(v) && v@ == rows,
            Err(e) => r == Err::<Vec<(u32, u32, u32)>, Panda3DError>(e),
        },
{
    let len = buf.len();
    let mut v: Vec<(u32, u32, u32)> = Vec::new();
    let mut n: usize = 0;
    while n < num
        invariant
            len == buf@.len(),
            stride > 0,
            num as int == len as int / (stride as int),
            start <= 0xFFFF,
            n <= num,
            n > 0 ==> start + stride * (n - 1) + 12 <= len,
            v@ =~= Seq::new(n as nat, |k: int| (le32(buf@, start + stride * k), le32(buf@, start + stride * k + 4), le32(buf@, start + stride * k + 8))),
        decreases num - n,
    {
        assert(stride * n <= len) by (nonlinear_arith)
            requires n < num, num as int == len as int / (stride as int), stride > 0;
        let off = stride * n;
        if len - off < 12 || len - off - 12 < start {
            assert(start + stride * (num - 1) + 12 > len) by (nonlinear_arith)
                requires n <= num - 1, start + stride * n + 12 > len, stride > 0;
            return Err(Panda3DError::DataError(DataError::EndOfFile));
        }
        let p = start + off;
        let row = (le32_at(buf, p), le32_at(buf, p + 4), le32_at(buf, p + 8));
        v.push(row);
        n = n + 1;
    }
    Ok(v)
}

/// Reads rows of two values (see `rows2`).
fn read_rows2(buf: &[u8], start: usize, stride: usize, num: usize) -> (r: Result<Vec<(u32, u32)>, Panda3DError>)
    requires
        stride > 0,
        num as int == buf@.len() as int / (stride as int),
        start <= 0xFFFF,
    ensures
        match rows2(buf@, start as int, stride as int, num as nat) {
            Ok(rows) => r matches Ok(v) && v@ == rows,
            Err(e) => r == Err::<Vec<(u32, u32)>, Panda3DError>(e),
        },
{
    let len = buf.len();
    let mut v: Vec<(u32, u32)> = Vec::new();
    let mut n: usize = 0;
    while n < num
        invariant
            len == buf@.len(),
            stride > 0,
            num as int == len as int / (stride as int),
            start <= 0xFFFF,
            n <= num,
            n > 0 ==> start + stride * (n - 1) + 8 <= len,
            v@ =~= Seq::new(n as nat, |k: int| (le32(buf@, start + stride * k), le32(buf@, start + stride * k + 4))),
        decreases num - n,
    {
        assert(stride * n <= len) by (nonlinear_arith)
            requires n < num, num as int == len as int / (stride as int), stride > 0;
        let off = stride * n;
        if len - off < 8 || len - off - 8 < start {
            assert(start + stride * (num - 1) + 8 > len) by (nonlinear_arith)
                requires n <= num - 1, start + stride * n + 8 > len, stride > 0;
            return Err(Panda3DError::DataError(DataError::EndOfFile));
        }
        let p = start + off;
        let row = (le32_at(buf, p), le32_at(buf, p + 4));
        v.push(row);
        n = n + 1;
    }
    Ok(v)
}

/// The vertex indices of a primitive (see `sp_indices`).
pub fn indices(asset: &BinaryAsset, p: &GeomPrimitive, prim_ref: u32) -> (r: Result<Indices, Panda3DError>)
    ensures
        match sp_indices(asset@, *p, prim_ref) {
            Ok(v) => r matches Ok(x) && x@ == v,
            Err(e) => r is Err && r->Err_0 == e,
        },
{
    match p.vertices_ref {
        Some(index) => {
            let ad = match asset.nodes.get_array_data(index as usize) {
                Some(ad) => ad,
                None => return Err(Panda3DError::WrongNode { node_index: index as usize, node_type: NodeType::GeomVertexArrayData }),
            };
            let af = match asset.nodes.get_array_format(ad.array_format_ref as usize) {
                Some(af) => af,
                None => return Err(
                    Panda3DError::WrongNode {
                        node_index: ad.array_format_ref as usize,
                        node_type: NodeType::GeomVertexArrayFormat,
                    },
                ),
            };
            if af.columns.len() == 0 {
                return Err(Panda3DError::UnexpectedData { node_index: ad.array_format_ref as usize });
            }
            let c = af.columns[0];
            let n = match asset.nodes.get_name(c.name_ref as usize) {
                Some(n) => n,
                None => return Err(Panda3DError::WrongNode { node_index: c.name_ref as usize, node_type: NodeType::InternalName }),
            };
            if c.numeric_type == NumericType::U16 && c.contents == Contents::Index && name_is(&n.name, "index") {
                Ok(Indices::U16(read_u16s(ad.buffer.as_slice())))
            } else {
                Err(Panda3DError::UnexpectedData { node_index: c.name_ref as usize })
            }
        },
        None => {
            let start = p.first_vertex as u32;
            let end: u32 = if p.num_vertices == -1 {
                match p.ends_ref {
                    Some(r) => {
                        if (r as usize) < asset.arrays.len() && asset.arrays[r as usize].len() == 1 {
                            proof {
                                assert(asset@.arrays[r as int] == asset.arrays@[r as int]@);
                            }
                            asset.arrays[r as usize][0]
                        } else {
                            proof {
                                if (r as usize) < asset.arrays.len() {
                                    assert(asset@.arrays[r as int] == asset.arrays@[r as int]@);
                                }
                            }
                            return Err(Panda3DError::UnexpectedData { node_index: prim_ref as usize });
                        }
                    },
                    None => return Err(Panda3DError::UnexpectedData { node_index: prim_ref as usize }),
                }
            } else {
                p.num_vertices as u32
            };
            if start as u64 + end as u64 > 0xFFFF_FFFF {
                return Err(Panda3DError::UnexpectedData { node_index: prim_ref as usize });
            }
            let mut v: Vec<u32> = Vec::new();
            let mut i: u32 = 0;
            while i < end
                invariant
                    i <= end,
                    start + end <= u32::MAX,
                    v@ =~= Seq::new(i as nat, |k: int| (start + k) as u32),
                decreases end - i,
            {
                v.push(start + i);
                i = i + 1;
            }
            Ok(Indices::U32(v))
        },
    }
}

/// The positions and texture coordinates that the columns of `af` hold (see `sp_columns`).
fn read_columns(asset: &BinaryAsset, buf: &[u8], af: &GeomVertexArrayFormat, num: usize) -> (r: Result<
    (Option<Vec<(u32, u32, u32)>>, Option<Vec<(u32, u32)>>),
    Panda3DError,
>)
    requires
        af.stride > 0,
        num as int == buf@.len() as int / (af.stride as int),
    ensures
        match sp_columns(asset@.nodes, buf@, af@, num as nat, af@.columns.len()) {
            Ok((pos, tex)) => r matches Ok(x) && opt_view(x.0) == pos && opt_view(x.1) == tex,
            Err(e) => r is Err && r->Err_0 == e,
        },
{
    let ghost nodes = asset@.nodes;
    let mut positions: Option<Vec<(u32, u32, u32)>> = None;
    let mut texcoords: Option<Vec<(u32, u32)>> = None;
    let mut k: usize = 0;
    while k < af.columns.len()
        invariant
            nodes == asset@.nodes,
            af.stride > 0,
            num as int == buf@.len() as int / (af.stride as int),
            k <= af@.columns.len(),
            sp_columns(nodes, buf@, af@, num as nat, k as nat) == Ok::<Attributes, Panda3DError>((opt_view(positions), opt_view(texcoords))),
        decreases af@.columns.len() - k,
    {
        let c = af.columns[k];
        let n = match asset.nodes.get_name(c.name_ref as usize) {
            Some(n) => n,
            None => {
                proof {
                    lemma_columns_err(nodes, buf@, af@, num as nat, (k + 1) as nat, af@.columns.len());
                }
                return Err(Panda3DError::WrongNode { node_index: c.name_ref as usize, node_type: NodeType::InternalName });
            },
        };
        let is_position = (c.num_components == 3 || c.num_components == 4) && c.numeric_type == NumericType::F32
            && c.contents == Contents::Point;
        let is_texcoord = c.num_components == 2 && c.numeric_type == NumericType::F32 && c.contents == Contents::TexCoord;
        if name_is(&n.name, "vertex") && is_position {
            match read_rows3(buf, c.start as usize, af.stride as usize, num) {
                Ok(rows) => {
                    positions = Some(rows);
                },
                Err(e) => {
                    proof {
                        lemma_columns_err(nodes, buf@, af@, num as nat, (k + 1) as nat, af@.columns.len());
                    }
                    return Err(e);
                },
            }
        } else if name_is(&n.name, "texcoord") && is_texcoord {
            match read_rows2(buf, c.start as usize, af.stride as usize, num) {
                Ok(rows) => {
                    texcoords = Some(rows);
                },
                Err(e) => {
                    proof {
                        lemma_columns_err(nodes, buf@, af@, num as nat, (k + 1) as nat, af@.columns.len());
                    }
                    return Err(e);
                },
            }
        }
        k = k + 1;
    }
    Ok((positions, texcoords))
}

/// The positions and texture coordinates of vertex data (see `sp_attributes`).
fn read_attributes(asset: &BinaryAsset, data_ref: u32, vd: &GeomVertexData, vf: &GeomVertexFormat) -> (r: Result<
    (Option<Vec<(u32, u32, u32)>>, Option<Vec<(u32, u32)>>),
    Panda3DError,
>)
    ensures
        match sp_attributes(asset@, data_ref, vd@, vf@) {
            Ok((pos, tex)) => r matches Ok(x) && opt_view(x.0) == pos && opt_view(x.1) == tex,
            Err(e) => r is Err && r->Err_0 == e,
        },
{
    if vd.array_refs.len() == 0 {
        return Err(Panda3DError::UnexpectedData { node_index: data_ref as usize });
    }
    if vf.array_refs.len() == 0 {
        return Err(Panda3DError::UnexpectedData { node_index: vd.format_ref as usize });
    }
    let ad = match asset.nodes.get_array_data(vd.array_refs[0] as usize) {
        Some(ad) => ad,
        None => return Err(Panda3DError::WrongNode { node_index: vd.array_refs[0] as usize, node_type: NodeType::GeomVertexArrayData }),
    };
    let af = match asset.nodes.get_array_format(vf.array_refs[0] as usize) {
        Some(af) => af,
        None => return Err(Panda3DError::WrongNode { node_index: vf.array_refs[0] as usize, node_type: NodeType::GeomVertexArrayFormat }),
    };
    if af.stride == 0 {
        return Err(Panda3DError::UnexpectedData { node_index: vf.array_refs[0] as usize });
    }
    let num = ad.buffer.len() / af.stride as usize;
    let attrs = match read_columns(asset, ad.buffer.as_slice(), af, num) {
        Ok(a) => a,
        Err(e) => return Err(e),
    };
    match vd.transform_blend_table_ref {
        Some(t) => Err(Panda3DError::WrongNode { node_index: t as usize, node_type: NodeType::TransformBlendTable }),
        None => Ok(attrs),
    }
}

/// The mesh data of a Geom of the asset (see `sp_mesh`).
pub fn mesh_data(asset: &BinaryAsset, geom: &Geom) -> (r: Result<MeshData, Panda3DError>)
    requires
        geom@.primitive_refs.len() > 0,
    ensures
        match sp_mesh(asset@, geom@) {
            Ok(m) => r matches Ok(x) && x@ == m,
            Err(e) => r is Err && r->Err_0 == e,
        },
{
    let vd = match asset.nodes.get_vertex_data(geom.data_ref as usize) {
        Some(vd) => vd,
        None => return Err(Panda3DError::WrongNode { node_index: geom.data_ref as usize, node_type: NodeType::GeomVertexData }),
    };
    let vf = match asset.nodes.get_vertex_format(vd.format_ref as usize) {
        Some(vf) => vf,
        None => return Err(Panda3DError::WrongNode { node_index: vd.format_ref as usize, node_type: NodeType::GeomVertexFormat }),
    };
    let prim_ref = geom.primitive_refs[0];
    let primitive = match asset.nodes.get_primitive(prim_ref as usize) {
        Some(p) => p,
        None => return Err(Panda3DError::WrongNode { node_index: prim_ref as usize, node_type: NodeType::GeomPrimitive }),
    };
    let indices = match indices(asset, primitive, prim_ref) {
        Ok(ix) => ix,
        Err(e) => return Err(e),
    };
    let (positions, texcoords) = match read_attributes(asset, geom.data_ref, vd, vf) {
        Ok(a) => a,
        Err(e) => return Err(e),
    };
    Ok(MeshData { topology: topology(geom), indices, positions, texcoords })
}

/// The mesh data of the Geom at index `geom_ref`; a Geom without primitives holds none.
pub fn geom_mesh(asset: &BinaryAsset, geom_ref: usize) -> (r: Result<MeshData, Panda3DError>)
    ensures
        match geom_at(asset@.nodes, geom_ref as int) {
            None => r is Err && r->Err_0 == (Panda3DError::WrongNode { node_index: geom_ref, node_type: NodeType::Geom }),
            Some(g) => if g.primitive_refs.len() == 0 {
                r is Err && r->Err_0 == (Panda3DError::UnexpectedData { node_index: geom_ref })
            } else {
                match sp_mesh(asset@, g) {
                    Ok(m) => r matches Ok(x) && x@ == m,
                    Err(e) => r is Err && r->Err_0 == e,
                }
            },
        },
{
    let geom = match asset.nodes.get_geom(geom_ref) {
        Some(g) => g,
        None => return Err(Panda3DError::WrongNode { node_index: geom_ref, node_type: NodeType::Geom }),
    };
    if geom.primitive_refs.len() == 0 {
        return Err(Panda3DError::UnexpectedData { node_index: geom_ref });
    }
    mesh_data(asset, geom)
}

/// The effects a node's RenderEffects give it, added to those of its parent.
#[derive(Clone, Copy, Debug, PartialEq, Eq, Structural)]
pub struct Effects {
    pub is_billboard: bool,
    pub is_decal: bool,
}

impl View for Effects {
    type V = Effects;

    open spec fn view(&self) -> Effects {
        *self
    }
}

/// The effects after the first `k` effects of `refs`: a BillboardEffect makes a billboard, a
/// DecalEffect a decal; other objects, and indices without an object, change nothing.
pub open spec fn sp_effects_from(nodes: Seq<NodeView>, refs: Seq<u32>, start: Effects, k: nat) -> Effects
    decreases k,
{
    if k == 0 || k > refs.len() {
        start
    } else {
        let e = sp_effects_from(nodes, refs, start, (k - 1) as nat);
        match node_at(nodes, refs[k - 1] as int) {
            Some(NodeView::BillboardEffect(_)) => Effects { is_billboard: true, ..e },
            Some(NodeView::DecalEffect(_)) => Effects { is_decal: true, ..e },
            _ => e,
        }
    }
}

/// The RenderEffects at index `i`, if that object is one.
pub open spec fn render_effects_at(nodes: Seq<NodeView>, i: int) -> Option<Seq<u32>> {
    match node_at(nodes, i) {
        Some(NodeView::RenderEffects(v)) => Some(v.effect_refs),
        _ => None,
    }
}

/// The effects of a node whose RenderEffects is object `node_index`, starting from its
/// parent's effects (none for a root).
pub open spec fn sp_effects(a: AssetView, parent: Option<Effects>, node_index: usize) -> Result<Effects, Panda3DError> {
    let start = match parent {
        Some(e) => e,
        None => Effects { is_billboard: false, is_decal: false },
    };
    match render_effects_at(a.nodes, node_index as int) {
        None => Err(Panda3DError::WrongNode { node_index, node_type: NodeType::RenderEffects }),
        Some(refs) => Ok(sp_effects_from(a.nodes, refs, start, refs.len())),
    }
}

impl Effects {
    /// The effects of a node (see `sp_effects`).
    pub fn new(assets: &BinaryAsset, parent: Option<&Effects>, node_index: usize) -> (r: Result<Effects, Panda3DError>)
        ensures
            match sp_effects(assets@, match parent { Some(p) => Some(*p), None => None }, node_index) {
                Ok(e) => r == Ok::<Effects, Panda3DError>(e),
                Err(e) => r == Err::<Effects, Panda3DError>(e),
            },
    {
        let mut result = match parent {
            Some(effects) => *effects,
            None => Effects { is_billboard: false, is_decal: false },
        };
        let ghost start = result;
        let effects = match assets.nodes.get(node_index) {
            Some(StoredNode::RenderEffects(e)) => e,
            _ => return Err(Panda3DError::WrongNode { node_index, node_type: NodeType::RenderEffects }),
        };
        let ghost refs = effects.effect_refs@;
        let mut k: usize = 0;
        while k < effects.effect_refs.len()
            invariant
                refs == effects.effect_refs@,
                k <= refs.len(),
                result == sp_effects_from(assets@.nodes, refs, start, k as nat),
            decreases refs.len() - k,
        {
            let effect = effects.effect_refs[k];
            match assets.nodes.get(effect as usize) {
                Some(StoredNode::BillboardEffect(_)) => {
                    result.is_billboard = true;
                },
                Some(StoredNode::DecalEffect(_)) => {
                    result.is_decal = true;
                },
                _ => {},
            }
            k = k + 1;
        }
        Ok(result)
    }
}

/// How texture coordinates outside [0, 1] are addressed by a renderer.
#[derive(Clone, Copy, Debug, PartialEq, Eq, Structural)]
pub enum AddressMode {
    ClampToEdge,
    Repeat,
    MirrorRepeat,
    ClampToBorder,
}

/// The address mode of a wrap mode; mirroring once and invalid modes have none.
pub open spec fn sp_wrap_mode(w: WrapMode) -> Result<AddressMode, Panda3DError> {
    match w {
        WrapMode::Clamp => Ok(AddressMode::ClampToEdge),
        WrapMode::Repeat => Ok(AddressMode::Repeat),
        WrapMode::Mirror => Ok(AddressMode::MirrorRepeat),
        WrapMode::BorderColor => Ok(AddressMode::ClampToBorder),
        _ => Err(Panda3DError::UnsupportedWrap { wrap_mode: w }),
    }
}

/// The address mode of a wrap mode (see `sp_wrap_mode`).
pub fn convert_wrap_mode(wrap_mode: WrapMode) -> (r: Result<AddressMode, Panda3DError>)
    ensures
        match sp_wrap_mode(wrap_mode) {
            Ok(m) => r == Ok::<AddressMode, Panda3DError>(m),
            Err(e) => r == Err::<AddressMode, Panda3DError>(e),
        },
{
    match wrap_mode {
        WrapMode::Clamp => Ok(AddressMode::ClampToEdge),
        WrapMode::Repeat => Ok(AddressMode::Repeat),
        WrapMode::Mirror => Ok(AddressMode::MirrorRepeat),
        WrapMode::BorderColor => Ok(AddressMode::ClampToBorder),
        _ => Err(Panda3DError::UnsupportedWrap { wrap_mode }),
    }
}

/// How a renderer filters a texture.
#[derive(Clone, Copy, Debug, PartialEq, Eq, Structural)]
pub enum FilterMode {
    Nearest,
    Linear,
}

/// The filter mode of a filter type: nearest sampling for the nearest filters (for the mipmap
/// filter of the two mixed modes, the mipmap half), linear sampling otherwise.
pub open spec fn sp_image_filter(filter: FilterType, is_mipmap: bool) -> FilterMode {
    match filter {
        FilterType::Nearest | FilterType::NearestMipmapNearest => FilterMode::Nearest,
        FilterType::NearestMipmapLinear => if is_mipmap {
            FilterMode::Linear
        } else {
            FilterMode::Nearest
        },
        FilterType::LinearMipmapNearest => if is_mipmap {
            FilterMode::Nearest
        } else {
            FilterMode::Linear
        },
        _ => FilterMode::Linear,
    }
}

/// The filter mode of a filter type (see `sp_image_filter`).
pub fn convert_image_filter(filter: FilterType, is_mipmap: bool) -> (m: FilterMode)
    ensures
        m == sp_image_filter(filter, is_mipmap),
{
    match filter {
        // Direct mappings for basic filtering modes
        FilterType::Nearest => FilterMode::Nearest,
        FilterType::Linear => FilterMode::Linear,
        // Minification and mipmap modes map to their nearest equivalent
        FilterType::NearestMipmapNearest => FilterMode::Nearest,
        FilterType::NearestMipmapLinear => if is_mipmap {
            FilterMode::Linear
        } else {
            FilterMode::Nearest
        },
        FilterType::LinearMipmapNearest => if is_mipmap {
            FilterMode::Nearest
        } else {
            FilterMode::Linear
        },
        FilterType::LinearMipmapLinear => FilterMode::Linear,
        // Smooth shadows, the usual default, and a safe fallback
        FilterType::Shadow => FilterMode::Linear,
        FilterType::Default => FilterMode::Linear,
        FilterType::Invalid => FilterMode::Linear,
    }
}

/// How a renderer samples a texture: an address mode for each of the three texture coordinates
/// and the magnification, minification and mipmap filters.
#[derive(Clone, Copy, Debug, PartialEq, Eq, Structural)]
pub struct SamplerModes {
    pub address_u: AddressMode,
    pub address_v: AddressMode,
    pub address_w: AddressMode,
    pub mag_filter: FilterMode,
    pub min_filter: FilterMode,
    pub mipmap_filter: FilterMode,
}

/// The sampler modes of a texture with wrap modes `wrap` (u, v, w) and filters `filter`
/// (minification, magnification): the first wrap mode without an address mode, in the order
/// u, v, w, is refused; the minification filter also gives the mipmap filter.
pub open spec fn sp_sampler_modes(wrap: Seq<WrapMode>, filter: Seq<FilterType>) -> Result<SamplerModes, Panda3DError> {
    match (sp_wrap_mode(wrap[0]), sp_wrap_mode(wrap[1]), sp_wrap_mode(wrap[2])) {
        (Err(e), _, _) => Err(e),
        (Ok(_), Err(e), _) => Err(e),
        (Ok(_), Ok(_), Err(e)) => Err(e),
        (Ok(u), Ok(v), Ok(w)) => Ok(
            SamplerModes {
                address_u: u,
                address_v: v,
                address_w: w,
                mag_filter: sp_image_filter(filter[1], false),
                min_filter: sp_image_filter(filter[0], false),
                mipmap_filter: sp_image_filter(filter[0], true),
            },
        ),
    }
}

/// The sampler modes of a texture (see `sp_sampler_modes`).
pub fn sampler_modes(wrap_mode: [WrapMode; 3], filter: [FilterType; 2]) -> (r: Result<SamplerModes, Panda3DError>)
    ensures
        r == sp_sampler_modes(wrap_mode@, filter@),
{
    let address_u = convert_wrap_mode(wrap_mode[0])?;
    let address_v = convert_wrap_mode(wrap_mode[1])?;
    let address_w = convert_wrap_mode(wrap_mode[2])?;
    Ok(
        SamplerModes {
            address_u,
            address_v,
            address_w,
            mag_filter: convert_image_filter(filter[1], false),
            min_filter: convert_image_filter(filter[0], false),
            mipmap_filter: convert_image_filter(filter[0], true),
        },
    )
}

/// RGBA pixel data whose alpha bytes, for the first `pixel_count` pixels, are taken from an
/// alpha image of one byte per pixel.
pub open spec fn sp_merge_alpha(rgba: Seq<u8>, alpha: Seq<u8>, pixel_count: nat) -> Seq<u8> {
    Seq::new(
        rgba.len(),
        |j: int| if j % 4 == 3 && j / 4 < pixel_count {
            alpha[j / 4]
        } else {
            rgba[j]
        },
    )
}

/// Takes the alpha of the first `pixel_count` pixels of RGBA data from a separate alpha image
/// (see `sp_merge_alpha`).
pub fn merge_alpha(rgba: &mut Vec<u8>, alpha: &[u8], pixel_count: usize)
    requires
        4 * pixel_count <= old(rgba)@.len(),
        pixel_count <= alpha@.len(),
    ensures
        final(rgba)@ == sp_merge_alpha(old(rgba)@, alpha@, pixel_count as nat),
{
    let mut i: usize = 0;
    while i < pixel_count
        invariant
            i <= pixel_count,
            4 * pixel_count <= old(rgba)@.len(),
            pixel_count <= alpha@.len(),
            rgba@ == sp_merge_alpha(old(rgba)@, alpha@, i as nat),
        decreases pixel_count - i,
    {
        let ghost before = rgba@;
        assert(rgba@.len() == old(rgba)@.len());
        assert(i * 4 + 3 < rgba.len());
        rgba.set(i * 4 + 3, alpha[i]);
        i = i + 1;
        assert(rgba@ =~= sp_merge_alpha(old(rgba)@, alpha@, i as nat)) by {
            assert forall|j: int| 0 <= j < rgba@.len() implies rgba@[j] == sp_merge_alpha(old(rgba)@, alpha@, i as nat)[j] by {
                if j == (i - 1) * 4 + 3 {
                    assert(j % 4 == 3 && j / 4 == i - 1);
                } else {
                    assert(before[j] == rgba@[j]);
                    assert(j % 4 == 3 && j / 4 < i ==> j / 4 < i - 1);
                }
            }
        }
    }
}

} // verus!
