//! Binary Asset (BAM) files of the Panda3D engine: a scene graph of Panda3D objects, most
//! often models and animations (".bam"; ".boo" for other objects).
//!
//! A file is the magic "pbj\0\n\r", then datagrams: 32-bit little-endian lengths, each
//! followed by that many bytes. The first datagram is the header; every further one holds an
//! object. Since BAM 6.21 an object datagram starts with a control code that nests objects;
//! before, each pointer to an object announces one more object to read.

use vstd::prelude::*;

use crate::bytes::{take_u8, u16_of, DataError, Endian, Reader};
use crate::common::Version;
use crate::datagram::{dg_frame, dg_i32, dg_string, dg_u16, dg_u32, dg_u8, Datagram, DgView};
use crate::nodes::dispatch::sp_make_from_bam;
use crate::nodes::storage::{NodeStorage, NodeView};
use crate::tables::{type_names, TypeRegistry};

verus! {

/// Error conditions when reading a Binary Asset.
#[derive(Clone, Copy, Debug, PartialEq, Eq, Structural)]
pub enum Error {
    /// Thrown if an error occurs when trying to read data.
    DataError(DataError),
    /// Thrown if reading tries to go out of bounds.
    EndOfFile,
    /// Thrown if the header contains a magic number other than "pbj\0\n\r".
    InvalidMagic,
    /// Thrown if the header version is not supported.
    InvalidVersion,
    /// Thrown for an object whose type name has no reader.
    InvalidTypeHandle(u16),
    /// Thrown for an object of a known type whose reader is not part of this library.
    UnsupportedType(u16),
    /// Thrown if a pointer that must be set is null.
    NullPointer,
    /// Thrown for a stream feature that is not implemented: the Remove and FileData control
    /// codes, compressed animation tables and layouts of old revisions.
    Unimplemented,
    /// Thrown if a null array pointer is followed by a nonzero array size.
    InvalidArray,
    /// Thrown if a value computed from the data does not fit its field.
    Overflow,
}

/// The error that a failed datagram read becomes.
pub open spec fn from_data(e: DataError) -> Error {
    Error::DataError(e)
}

fn data_error(e: DataError) -> (r: Error)
    ensures
        r == from_data(e),
{
    Error::DataError(e)
}

/// Latest revision of the BAM format.
pub open spec fn current_version() -> Version {
    Version { major: 6, minor: 45 }
}

/// Earliest supported revision of the BAM format.
pub open spec fn minimum_version() -> Version {
    Version { major: 6, minor: 14 }
}

/// The magic bytes that start every Binary Asset: "pbj\0\n\r".
pub open spec fn magic() -> Seq<u8> {
    seq![0x70u8, 0x62, 0x6A, 0x00, 0x0A, 0x0D]
}

/// The header datagram of a Binary Asset.
#[derive(Clone, Copy, Debug, PartialEq, Eq, Structural)]
pub struct Header {
    pub version: Version,
    /// Byte order of the object datagrams.
    pub endian: Endian,
    /// Whether floats are stored as doubles (BAM 6.27 and later).
    pub use_double: bool,
}

/// The header that datagram `d` holds: the version, the byte order (0 big-endian, 1
/// little-endian, anything else the default, little-endian), and from 6.27 on a byte that is
/// nonzero where floats are doubles.
pub open spec fn spec_header(d: DgView) -> Result<Header, Error> {
    match dg_u16(d) {
        Err(e) => Err(from_data(e)),
        Ok((major, d1)) => match dg_u16(d1) {
            Err(e) => Err(from_data(e)),
            Ok((minor, d2)) => match dg_u8(d2) {
                Err(e) => Err(from_data(e)),
                Ok((e, d3)) => {
                    let endian = if e == 0 {
                        Endian::Big
                    } else {
                        Endian::Little
                    };
                    let version = Version { major, minor };
                    if minor >= 27 {
                        match dg_u8(d3) {
                            Err(err) => Err(from_data(err)),
                            Ok((b, _)) => Ok(Header { version, endian, use_double: b != 0 }),
                        }
                    } else {
                        Ok(Header { version, endian, use_double: false })
                    }
                },
            },
        },
    }
}

impl Header {
    /// Reads the header from its datagram.
    pub fn create(data: Datagram) -> (r: Result<Header, Error>)
        requires
            data.wf(),
        ensures
            match spec_header(data@) {
                Ok(h) => r == Ok::<Header, Error>(h),
                Err(e) => r == Err::<Header, Error>(e),
            },
    {
        let mut data = data;
        let major = match data.read_u16() {
            Ok(v) => v,
            Err(e) => return Err(data_error(e)),
        };
        let minor = match data.read_u16() {
            Ok(v) => v,
            Err(e) => return Err(data_error(e)),
        };
        let endian = match data.read_u8() {
            Ok(0) => Endian::Big,
            Ok(1) => Endian::Little,
            Ok(_) => Endian::default_order(),
            Err(e) => return Err(data_error(e)),
        };
        let version = Version { major, minor };
        let use_double = if minor >= 27 {
            match data.read_u8() {
                Ok(b) => b != 0,
                Err(e) => return Err(data_error(e)),
            }
        } else {
            false
        };
        Ok(Header { version, endian, use_double })
    }
}

/// Control codes at the start of an object datagram (BAM 6.21 and later).
#[derive(Clone, Copy, Debug, PartialEq, Eq, Structural)]
pub enum ObjectCode {
    /// Includes an object definition, always paired with a Pop.
    Push,
    /// Paired with a Push in order to allow for nesting.
    Pop,
    /// Includes an object definition, does not change nesting level.
    Adjunct,
    /// List of object IDs that were deallocated by the sender.
    Remove,
    /// Additional file data that can be referenced by other objects.
    FileData,
}

impl ObjectCode {
    /// The code that byte `b` stands for; values out of range stand for `Adjunct`.
    pub open spec fn from_byte(b: u8) -> ObjectCode {
        if b == 0 {
            ObjectCode::Push
        } else if b == 1 {
            ObjectCode::Pop
        } else if b == 3 {
            ObjectCode::Remove
        } else if b == 4 {
            ObjectCode::FileData
        } else {
            ObjectCode::Adjunct
        }
    }

    pub fn from_u8(b: u8) -> (r: ObjectCode)
        ensures
            r == ObjectCode::from_byte(b),
    {
        match b {
            0 => ObjectCode::Push,
            1 => ObjectCode::Pop,
            3 => ObjectCode::Remove,
            4 => ObjectCode::FileData,
            _ => ObjectCode::Adjunct,
        }
    }
}

/// How the loader knows how many objects are left to read.
#[derive(Clone, Copy, Debug, PartialEq, Eq, Structural)]
pub enum ObjectsLeft {
    /// Prior to BAM 6.21: objects announced by pointers and not yet read.
    ObjectCount { num_extra_objects: i32 },
    /// Starting with BAM 6.21: the nesting depth of Push codes not yet closed by a Pop.
    NestingLevel { nesting_level: i32 },
}

impl Default for ObjectsLeft {
    /// No open nesting level.
    fn default() -> (r: ObjectsLeft)
        ensures
            r == (ObjectsLeft::NestingLevel { nesting_level: 0 }),
    {
        ObjectsLeft::NestingLevel { nesting_level: 0 }
    }
}

/// One more, wrapping around past `i32::MAX`.
pub open spec fn succ(n: i32) -> i32 {
    if n == i32::MAX {
        i32::MIN
    } else {
        (n + 1) as i32
    }
}

/// One less, wrapping around past `i32::MIN`.
pub open spec fn pred(n: i32) -> i32 {
    if n == i32::MIN {
        i32::MAX
    } else {
        (n - 1) as i32
    }
}

fn succ_i32(n: i32) -> (r: i32)
    ensures
        r == succ(n),
{
    if n == i32::MAX {
        i32::MIN
    } else {
        n + 1
    }
}

fn pred_i32(n: i32) -> (r: i32)
    ensures
        r == pred(n),
{
    if n == i32::MIN {
        i32::MAX
    } else {
        n - 1
    }
}

/// The abstract state of a loader: everything that reading objects depends on or changes.
pub struct AssetView {
    pub header: Header,
    pub objects_left: ObjectsLeft,
    pub long_object_id: bool,
    pub long_pta_id: bool,
    pub types: Map<u16, Seq<char>>,
    pub nodes: Seq<NodeView>,
    pub arrays: Seq<Seq<u32>>,
}

/// The outcome of reading a `T` from a datagram: the value with the loader and datagram states
/// after it, or an error.
pub type PR<T> = Result<(T, AssetView, DgView), Error>;

/// A datagram read lifted to the loader: the loader state is unchanged, errors are wrapped.
pub open spec fn lift<T>(r: Result<(T, DgView), DataError>, a: AssetView) -> PR<T> {
    match r {
        Ok((v, d)) => Ok((v, a, d)),
        Err(e) => Err(from_data(e)),
    }
}

/// A loaded Binary Asset.
pub struct BinaryAsset {
    /// Holds BAM header data, including version and float type.
    pub header: Header,
    /// Used to keep track of how many more objects to read from the stream.
    pub objects_left: ObjectsLeft,
    /// Used if there are more than 65535 Object IDs.
    pub long_object_id: bool,
    /// Used if there are more than 65535 PTA (Pointer to Array) IDs.
    pub long_pta_id: bool,
    /// Stores the names of all types that have been encountered.
    pub type_registry: TypeRegistry,
    /// Stores the data for all nodes in the scene graph.
    pub nodes: NodeStorage,
    /// Stores any auxiliary data referenced by nodes.
    pub arrays: Vec<Vec<u32>>,
}

impl View for BinaryAsset {
    type V = AssetView;

    open spec fn view(&self) -> AssetView {
        AssetView {
            header: self.header,
            objects_left: self.objects_left,
            long_object_id: self.long_object_id,
            long_pta_id: self.long_pta_id,
            types: type_names(self.type_registry),
            nodes: self.nodes@,
            arrays: self.arrays.deep_view(),
        }
    }
}

/// Reads an object ID: 16 bits until the value 0xFFFF has been seen, 32 bits after.
pub open spec fn sp_object_id(a: AssetView, d: DgView) -> PR<u32> {
    if a.long_object_id {
        lift(dg_u32(d), a)
    } else {
        match dg_u16(d) {
            Err(e) => Err(from_data(e)),
            Ok((v, d1)) => Ok((v as u32, AssetView { long_object_id: v == 0xFFFF, ..a }, d1)),
        }
    }
}

/// Reads a pointer-to-array ID: 16 bits until the value 0xFFFF has been seen, 32 bits after.
pub open spec fn sp_pta_id(a: AssetView, d: DgView) -> PR<u32> {
    if a.long_pta_id {
        lift(dg_u32(d), a)
    } else {
        match dg_u16(d) {
            Err(e) => Err(from_data(e)),
            Ok((v, d1)) => Ok((v as u32, AssetView { long_pta_id: v == 0xFFFF, ..a }, d1)),
        }
    }
}

/// Reads a pointer: an object ID, zero for none. The pointed-to object is object `id - 1`;
/// before BAM 6.21 it is one more object to read.
pub open spec fn sp_pointer(a: AssetView, d: DgView) -> PR<Option<u32>> {
    match sp_object_id(a, d) {
        Err(e) => Err(e),
        Ok((id, a1, d1)) => if id == 0 {
            Ok((None, a1, d1))
        } else {
            let left = match a1.objects_left {
                ObjectsLeft::ObjectCount { num_extra_objects } => ObjectsLeft::ObjectCount {
                    num_extra_objects: succ(num_extra_objects),
                },
                other => other,
            };
            Ok((Some((id - 1) as u32), AssetView { objects_left: left, ..a1 }, d1))
        },
    }
}

/// Reads a pointer that must be set.
pub open spec fn sp_ref(a: AssetView, d: DgView) -> PR<u32> {
    match sp_pointer(a, d) {
        Err(e) => Err(e),
        Ok((None, _, _)) => Err(Error::NullPointer),
        Ok((Some(p), a1, d1)) => Ok((p, a1, d1)),
    }
}

/// `outcome` holds of an exec result `r`, the loader after the call `a` and the datagram after
/// the call `d`, measured against the specified outcome `s`.
pub open spec fn outcome<T: View>(r: Result<T, Error>, s: PR<T::V>, a: AssetView, d: DgView) -> bool {
    match s {
        Ok((v, a2, d2)) => r matches Ok(x) && x@ == v && a == a2 && d == d2,
        Err(e) => r == Err::<T, Error>(e),
    }
}

impl BinaryAsset {
    /// The minor version of the file being read.
    pub fn get_minor_version(&self) -> (v: u16)
        ensures
            v == self.header.version.minor,
    {
        self.header.version.minor
    }

    /// Reads an object ID (see `sp_object_id`).
    pub fn read_object_id(&mut self, data: &mut Datagram) -> (r: Result<u32, Error>)
        requires
            old(data).wf(),
        ensures
            final(self).header == old(self).header,
            final(data).wf(),
            outcome(r, sp_object_id(old(self)@, old(data)@), final(self)@, final(data)@),
    {
        if self.long_object_id {
            match data.read_u32() {
                Ok(v) => Ok(v),
                Err(e) => Err(data_error(e)),
            }
        } else {
            match data.read_u16() {
                Ok(v) => {
                    self.long_object_id = v == 0xFFFF;
                    Ok(v as u32)
                },
                Err(e) => Err(data_error(e)),
            }
        }
    }

    /// Reads a pointer-to-array ID (see `sp_pta_id`).
    pub fn read_pta_id(&mut self, data: &mut Datagram) -> (r: Result<u32, Error>)
        requires
            old(data).wf(),
        ensures
            final(self).header == old(self).header,
            final(data).wf(),
            outcome(r, sp_pta_id(old(self)@, old(data)@), final(self)@, final(data)@),
    {
        if self.long_pta_id {
            match data.read_u32() {
                Ok(v) => Ok(v),
                Err(e) => Err(data_error(e)),
            }
        } else {
            match data.read_u16() {
                Ok(v) => {
                    self.long_pta_id = v == 0xFFFF;
                    Ok(v as u32)
                },
                Err(e) => Err(data_error(e)),
            }
        }
    }

    /// Reads a pointer (see `sp_pointer`).
    pub fn read_pointer(&mut self, data: &mut Datagram) -> (r: Result<Option<u32>, Error>)
        requires
            old(data).wf(),
        ensures
            final(self).header == old(self).header,
            final(data).wf(),
            outcome(r, sp_pointer(old(self)@, old(data)@), final(self)@, final(data)@),
    {
        let object_id = match self.read_object_id(data) {
            Ok(v) => v,
            Err(e) => return Err(e),
        };
        if object_id != 0 {
            match self.objects_left {
                ObjectsLeft::ObjectCount { num_extra_objects } => {
                    self.objects_left = ObjectsLeft::ObjectCount {
                        num_extra_objects: succ_i32(num_extra_objects),
                    };
                },
                ObjectsLeft::NestingLevel { .. } => {},
            }
            Ok(Some(object_id - 1))
        } else {
            Ok(None)
        }
    }

    /// Reads a pointer that must be set (see `sp_ref`).
    pub fn read_ref(&mut self, data: &mut Datagram) -> (r: Result<u32, Error>)
        requires
            old(data).wf(),
        ensures
            final(self).header == old(self).header,
            final(data).wf(),
            outcome(r, sp_ref(old(self)@, old(data)@), final(self)@, final(data)@),
    {
        match self.read_pointer(data) {
            Ok(Some(p)) => Ok(p),
            Ok(None) => Err(Error::NullPointer),
            Err(e) => Err(e),
        }
    }
}

/// Registers the `pending` type handles that come next in `d`. A handle seen before is just
/// read; a new one is followed by its type name, which is registered, and by the number of its
/// parent types, whose handles come next, each with its own parents, depth first.
pub open spec fn sp_handles(types: Map<u16, Seq<char>>, d: DgView, pending: nat) -> Result<
    (Map<u16, Seq<char>>, DgView),
    Error,
>
    decreases d.remaining(),
{
    if pending == 0 {
        Ok((types, d))
    } else {
        match dg_u16(d) {
            Err(e) => Err(from_data(e)),
            Ok((h, d1)) => if types.contains_key(h) {
                sp_handles(types, d1, (pending - 1) as nat)
            } else {
                match dg_string(d1) {
                    Err(e) => Err(from_data(e)),
                    Ok((name, d2)) => match dg_u8(d2) {
                        Err(e) => Err(from_data(e)),
                        Ok((c, d3)) => sp_handles(types.insert(h, name), d3, (pending - 1 + c) as nat),
                    },
                }
            },
        }
    }
}

/// Reads a type handle, registering it and the types it derives from where they are new (see
/// `sp_handles`).
pub open spec fn sp_read_handle(a: AssetView, d: DgView) -> PR<u16> {
    match dg_u16(d) {
        Err(e) => Err(from_data(e)),
        Ok((h, d1)) => if a.types.contains_key(h) {
            Ok((h, a, d1))
        } else {
            match dg_string(d1) {
                Err(e) => Err(from_data(e)),
                Ok((name, d2)) => match dg_u8(d2) {
                    Err(e) => Err(from_data(e)),
                    Ok((c, d3)) => match sp_handles(a.types.insert(h, name), d3, c as nat) {
                        Err(e) => Err(e),
                        Ok((t, d4)) => Ok((h, AssetView { types: t, ..a }, d4)),
                    },
                },
            }
        },
    }
}

impl BinaryAsset {
    /// Reads a type handle and registers the types that are new (see `sp_read_handle`).
    pub fn read_handle(&mut self, data: &mut Datagram) -> (r: Result<u16, Error>)
        requires
            old(data).wf(),
        ensures
            final(self).header == old(self).header,
            final(data).wf(),
            outcome(r, sp_read_handle(old(self)@, old(data)@), final(self)@, final(data)@),
    {
        let type_handle = match data.read_u16() {
            Ok(v) => v,
            Err(e) => return Err(data_error(e)),
        };
        if self.type_registry.contains_key(type_handle) {
            return Ok(type_handle);
        }
        let registered_name = match data.read_string() {
            Ok(s) => s,
            Err(e) => return Err(data_error(e)),
        };
        self.type_registry.insert(type_handle, registered_name);
        let parent_count = match data.read_u8() {
            Ok(v) => v,
            Err(e) => return Err(data_error(e)),
        };
        let ghost t0 = type_names(self.type_registry);
        let ghost d0 = data@;
        let mut pending: u64 = parent_count as u64;
        assert(sp_read_handle(old(self)@, old(data)@) == match sp_handles(t0, d0, parent_count as nat) {
            Err(e) => Err(e),
            Ok((t, d4)) => Ok((type_handle, AssetView { types: t, ..old(self)@ }, d4)),
        });
        while pending > 0
            invariant
                data.wf(),
                sp_read_handle(old(self)@, old(data)@) == match sp_handles(t0, d0, parent_count as nat) {
                    Err(e) => Err(e),
                    Ok((t, d4)) => Ok((type_handle, AssetView { types: t, ..old(self)@ }, d4)),
                },
                pending <= 51 * data@.pos,
                sp_handles(t0, d0, parent_count as nat) == sp_handles(
                    type_names(self.type_registry),
                    data@,
                    pending as nat,
                ),
                self.header == old(self).header,
                self.objects_left == old(self).objects_left,
                self.long_object_id == old(self).long_object_id,
                self.long_pta_id == old(self).long_pta_id,
                self.nodes@ == old(self).nodes@,
                self.arrays.deep_view() == old(self).arrays.deep_view(),
            decreases data@.remaining(),
        {
            let handle = match data.read_u16() {
                Ok(v) => v,
                Err(e) => return Err(data_error(e)),
            };
            if self.type_registry.contains_key(handle) {
                pending = pending - 1;
            } else {
                let name = match data.read_string() {
                    Ok(s) => s,
                    Err(e) => return Err(data_error(e)),
                };
                self.type_registry.insert(handle, name);
                let count = match data.read_u8() {
                    Ok(v) => v,
                    Err(e) => return Err(data_error(e)),
                };
                pending = pending - 1 + count as u64;
            }
        }
        Ok(type_handle)
    }
}

/// `n` items read one after another by `item`.
pub open spec fn sp_repeat<T>(
    item: spec_fn(AssetView, DgView) -> PR<T>,
    a: AssetView,
    d: DgView,
    n: nat,
) -> PR<Seq<T>>
    decreases n,
{
    if n == 0 {
        Ok((Seq::empty(), a, d))
    } else {
        match sp_repeat(item, a, d, (n - 1) as nat) {
            Err(e) => Err(e),
            Ok((xs, a1, d1)) => match item(a1, d1) {
                Err(e) => Err(e),
                Ok((x, a2, d2)) => Ok((xs.push(x), a2, d2)),
            },
        }
    }
}

/// Once reading `k` items fails, reading more fails with the same error.
pub proof fn lemma_repeat_err<T>(
    item: spec_fn(AssetView, DgView) -> PR<T>,
    a: AssetView,
    d: DgView,
    k: nat,
    n: nat,
)
    requires
        k <= n,
        sp_repeat(item, a, d, k) is Err,
    ensures
        sp_repeat(item, a, d, n) == sp_repeat(item, a, d, k),
    decreases n - k,
{
    if k < n {
        lemma_repeat_err(item, a, d, k, (n - 1) as nat);
    }
}

/// Reads a pointer that must be set, as a list item.
pub open spec fn ref_item() -> spec_fn(AssetView, DgView) -> PR<u32> {
    |a: AssetView, d: DgView| sp_ref(a, d)
}

/// Reads a pointer that must be set, then a signed 32-bit sort value.
pub open spec fn sp_ref_sort(a: AssetView, d: DgView) -> PR<(u32, i32)> {
    match sp_ref(a, d) {
        Err(e) => Err(e),
        Ok((p, a1, d1)) => match lift(dg_i32(d1), a1) {
            Err(e) => Err(e),
            Ok((v, a2, d2)) => Ok(((p, v), a2, d2)),
        },
    }
}

/// `sp_ref_sort` as a list item.
pub open spec fn ref_sort_item() -> spec_fn(AssetView, DgView) -> PR<(u32, i32)> {
    |a: AssetView, d: DgView| sp_ref_sort(a, d)
}

impl BinaryAsset {
    /// Reads `n` pointers that must be set.
    pub fn read_refs(&mut self, data: &mut Datagram, n: u32) -> (r: Result<Vec<u32>, Error>)
        requires
            old(data).wf(),
        ensures
            final(self).header == old(self).header,
            final(data).wf(),
            outcome(r, sp_repeat(ref_item(), old(self)@, old(data)@, n as nat), final(self)@, final(data)@),
    {
        let ghost a0 = self@;
        let ghost d0 = data@;
        let mut v: Vec<u32> = Vec::new();
        let mut i: u32 = 0;
        while i < n
            invariant
                self.header == old(self).header,
                data.wf(),
                a0 == old(self)@,
                d0 == old(data)@,
                i <= n,
                sp_repeat(ref_item(), a0, d0, i as nat) == Ok::<(Seq<u32>, AssetView, DgView), Error>((v@, self@, data@)),
            decreases n - i,
        {
            match self.read_ref(data) {
                Ok(p) => {
                    v.push(p);
                },
                Err(e) => {
                    proof {
                        lemma_repeat_err(ref_item(), a0, d0, (i + 1) as nat, n as nat);
                    }
                    return Err(e);
                },
            }
            i = i + 1;
        }
        Ok(v)
    }

    /// Reads a pointer that must be set and a sort value (see `sp_ref_sort`).
    pub fn read_ref_sort(&mut self, data: &mut Datagram) -> (r: Result<(u32, i32), Error>)
        requires
            old(data).wf(),
        ensures
            final(self).header == old(self).header,
            final(data).wf(),
            outcome(r, sp_ref_sort(old(self)@, old(data)@), final(self)@, final(data)@),
    {
        let p = match self.read_ref(data) {
            Ok(p) => p,
            Err(e) => return Err(e),
        };
        match data.read_i32() {
            Ok(v) => Ok((p, v)),
            Err(e) => Err(data_error(e)),
        }
    }

    /// Reads `n` pointer and sort value pairs.
    pub fn read_ref_sorts(&mut self, data: &mut Datagram, n: u32) -> (r: Result<Vec<(u32, i32)>, Error>)
        requires
            old(data).wf(),
        ensures
            final(self).header == old(self).header,
            final(data).wf(),
            outcome(r, sp_repeat(ref_sort_item(), old(self)@, old(data)@, n as nat), final(self)@, final(data)@),
    {
        let ghost a0 = self@;
        let ghost d0 = data@;
        let mut v: Vec<(u32, i32)> = Vec::new();
        let mut i: u32 = 0;
        while i < n
            invariant
                self.header == old(self).header,
                data.wf(),
                a0 == old(self)@,
                d0 == old(data)@,
                i <= n,
                sp_repeat(ref_sort_item(), a0, d0, i as nat) == Ok::<(Seq<(u32, i32)>, AssetView, DgView), Error>((v@, self@, data@)),
            decreases n - i,
        {
            match self.read_ref_sort(data) {
                Ok(p) => {
                    v.push(p);
                },
                Err(e) => {
                    proof {
                        lemma_repeat_err(ref_sort_item(), a0, d0, (i + 1) as nat, n as nat);
                    }
                    return Err(e);
                },
            }
            i = i + 1;
        }
        Ok(v)
    }
}

/// The control code that starts an object datagram from BAM 6.21 on: Push opens a nesting
/// level, Pop closes one and ends the datagram (`true`), Adjunct leaves the level as it is;
/// Remove and FileData are not supported. Before 6.21 there is no code.
pub open spec fn sp_control(a: AssetView, d: DgView) -> Result<(AssetView, DgView, bool), Error> {
    match a.objects_left {
        ObjectsLeft::ObjectCount { .. } => Ok((a, d, false)),
        ObjectsLeft::NestingLevel { nesting_level } => match dg_u8(d) {
            Err(e) => Err(from_data(e)),
            Ok((c, d1)) => match ObjectCode::from_byte(c) {
                ObjectCode::Push => Ok(
                    (
                        AssetView {
                            objects_left: ObjectsLeft::NestingLevel { nesting_level: succ(nesting_level) },
                            ..a
                        },
                        d1,
                        false,
                    ),
                ),
                ObjectCode::Pop => Ok(
                    (
                        AssetView {
                            objects_left: ObjectsLeft::NestingLevel { nesting_level: pred(nesting_level) },
                            ..a
                        },
                        d1,
                        true,
                    ),
                ),
                ObjectCode::Adjunct => Ok((a, d1, false)),
                _ => Err(Error::Unimplemented),
            },
        },
    }
}

/// Reads the object datagram at `pos` of the stream `s`: the control code (see `sp_control`),
/// the type handle (see `sp_read_handle`) and the object ID; an object of a type handle other
/// than zero is then read and stored (see `sp_make_from_bam`). Bytes left over in the datagram
/// are skipped. Returns the loader state and the position after the datagram.
pub open spec fn sp_read_object(a: AssetView, s: Seq<u8>, pos: int) -> Result<(AssetView, int), Error> {
    match dg_frame(s, pos, a.header.endian, a.header.use_double) {
        Err(e) => Err(from_data(e)),
        Ok((d, next)) => match sp_control(a, d) {
            Err(e) => Err(e),
            Ok((a1, _, true)) => Ok((a1, next)),
            Ok((a1, d1, false)) => match sp_read_handle(a1, d1) {
                Err(e) => Err(e),
                Ok((h, a2, d2)) => match sp_object_id(a2, d2) {
                    Err(e) => Err(e),
                    Ok((_, a3, d3)) => if h != 0 {
                        match sp_make_from_bam(a3, d3, h) {
                            Err(e) => Err(e),
                            Ok((a4, _)) => Ok((a4, next)),
                        }
                    } else {
                        Ok((a3, next))
                    },
                },
            },
        },
    }
}

/// A datagram read moves the stream position past its length field.
pub proof fn lemma_read_object_advances(a: AssetView, s: Seq<u8>, pos: int)
    requires
        sp_read_object(a, s, pos) is Ok,
    ensures
        sp_read_object(a, s, pos) matches Ok((_, next)) && pos + 4 <= next <= s.len(),
{
}

/// Reads objects until none are left: before BAM 6.21 while objects announced by pointers
/// remain, each read counting one of them off (the count taken before the read, so that
/// pointers read during it are not counted); from 6.21 on while a nesting level is open.
pub open spec fn sp_read_objects(a: AssetView, s: Seq<u8>, pos: int) -> Result<AssetView, Error>
    decreases s.len() - pos,
{
    match a.objects_left {
        ObjectsLeft::ObjectCount { num_extra_objects } => if num_extra_objects > 0 {
            match sp_read_object(a, s, pos) {
                Err(e) => Err(e),
                Ok((a1, next)) => if pos < next <= s.len() {
                    sp_read_objects(
                        AssetView {
                            objects_left: ObjectsLeft::ObjectCount { num_extra_objects: (num_extra_objects - 1) as i32 },
                            ..a1
                        },
                        s,
                        next,
                    )
                } else {
                    Err(Error::EndOfFile)
                },
            }
        } else {
            Ok(a)
        },
        ObjectsLeft::NestingLevel { nesting_level } => if nesting_level > 0 {
            match sp_read_object(a, s, pos) {
                Err(e) => Err(e),
                Ok((a1, next)) => if pos < next <= s.len() {
                    sp_read_objects(a1, s, next)
                } else {
                    Err(Error::EndOfFile)
                },
            }
        } else {
            Ok(a)
        },
    }
}

/// The loader state when the first object is to be read: nothing registered or read yet, and
/// the way objects are counted that the header's version calls for.
pub open spec fn initial_state(h: Header) -> AssetView {
    AssetView {
        header: h,
        objects_left: if h.version.minor >= 21 {
            ObjectsLeft::NestingLevel { nesting_level: 0 }
        } else {
            ObjectsLeft::ObjectCount { num_extra_objects: 0 }
        },
        long_object_id: false,
        long_pta_id: false,
        types: Map::empty(),
        nodes: Seq::empty(),
        arrays: Seq::empty(),
    }
}

/// Whether the file's version can be read: major version 6, minor version from 14 to 45.
pub open spec fn supported_version(v: Version) -> bool {
    v.major == current_version().major && v.minor >= minimum_version().minor && v.minor
        <= current_version().minor
}

/// What loading the Binary Asset `s` gives: the magic (fewer than six bytes is `EndOfFile`,
/// other bytes `InvalidMagic`), the header datagram (an unsupported version is
/// `InvalidVersion`), the first object, and the objects that it leaves to read (see
/// `sp_read_objects`).
pub open spec fn spec_load(s: Seq<u8>) -> Result<AssetView, Error> {
    if s.len() < 6 {
        Err(Error::EndOfFile)
    } else if s.subrange(0, 6) != magic() {
        Err(Error::InvalidMagic)
    } else {
        match dg_frame(s, 6, Endian::Little, false) {
            Err(e) => Err(from_data(e)),
            Ok((hd, p)) => match spec_header(hd) {
                Err(e) => Err(e),
                Ok(h) => if !supported_version(h.version) {
                    Err(Error::InvalidVersion)
                } else {
                    match sp_read_object(initial_state(h), s, p) {
                        Err(e) => Err(e),
                        Ok((a, p1)) => sp_read_objects(a, s, p1),
                    }
                },
            },
        }
    }
}

/// Whether the six bytes are the magic.
fn is_magic(m: &[u8]) -> (b: bool)
    requires
        m@.len() == 6,
    ensures
        b == (m@ == magic()),
{
    let b = m[0] == 0x70 && m[1] == 0x62 && m[2] == 0x6A && m[3] == 0x00 && m[4] == 0x0A && m[5] == 0x0D;
    assert(b ==> m@ =~= magic());
    b
}

impl BinaryAsset {
    /// An empty loader for a file with header `header`.
    pub fn new(header: Header) -> (r: BinaryAsset)
        ensures
            r@ == initial_state(header),
    {
        let objects_left = if header.version.minor >= 21 {
            ObjectsLeft::NestingLevel { nesting_level: 0 }
        } else {
            ObjectsLeft::ObjectCount { num_extra_objects: 0 }
        };
        let r = BinaryAsset {
            header,
            objects_left,
            long_object_id: false,
            long_pta_id: false,
            type_registry: TypeRegistry::new(),
            nodes: NodeStorage::new(),
            arrays: Vec::new(),
        };
        assert(r@.types =~= Map::<u16, Seq<char>>::empty());
        assert(r@.arrays =~= Seq::<Seq<u32>>::empty());
        r
    }

    /// Reads one object datagram (see `sp_read_object`).
    pub fn read_object(&mut self, data: &mut Reader) -> (r: Result<(), Error>)
        requires
            old(data).wf(),
            old(data).endian == Endian::Little,
        ensures
            final(self).header == old(self).header,
            final(data).wf(),
            final(data).data@ == old(data).data@,
            final(data).endian == Endian::Little,
            match sp_read_object(old(self)@, old(data).data@, old(data).pos as int) {
                Ok((a, p)) => r is Ok && final(self)@ == a && final(data).pos == p,
                Err(e) => r == Err::<(), Error>(e),
            },
    {
        let mut datagram = match Datagram::new(data, self.header.endian, self.header.use_double) {
            Ok(d) => d,
            Err(e) => return Err(data_error(e)),
        };
        // Since BAM v6.21, control flow codes are part of the data stream.
        match self.objects_left {
            ObjectsLeft::NestingLevel { nesting_level } => {
                let code = match datagram.read_u8() {
                    Ok(c) => ObjectCode::from_u8(c),
                    Err(e) => return Err(data_error(e)),
                };
                match code {
                    ObjectCode::Push => {
                        self.objects_left = ObjectsLeft::NestingLevel { nesting_level: succ_i32(nesting_level) };
                    },
                    ObjectCode::Pop => {
                        self.objects_left = ObjectsLeft::NestingLevel { nesting_level: pred_i32(nesting_level) };
                        return Ok(());
                    },
                    ObjectCode::Adjunct => {},
                    _ => {
                        return Err(Error::Unimplemented);
                    },
                }
            },
            ObjectsLeft::ObjectCount { .. } => {},
        }
        // Check the type handle, see if we need to register any new types.
        let type_handle = match self.read_handle(&mut datagram) {
            Ok(h) => h,
            Err(e) => return Err(e),
        };
        match self.read_object_id(&mut datagram) {
            Ok(_) => {},
            Err(e) => return Err(e),
        }
        if type_handle != 0 {
            // A new object: create its node and fill in its parameters.
            match self.make_from_bam(&mut datagram, type_handle) {
                Ok(()) => {},
                Err(e) => return Err(e),
            }
        }
        Ok(())
    }

    /// Reads objects until none are left (see `sp_read_objects`).
    pub fn read_objects(&mut self, data: &mut Reader) -> (r: Result<(), Error>)
        requires
            old(data).wf(),
            old(data).endian == Endian::Little,
        ensures
            final(self).header == old(self).header,
            match sp_read_objects(old(self)@, old(data).data@, old(data).pos as int) {
                Ok(a) => r is Ok && final(self)@ == a,
                Err(e) => r == Err::<(), Error>(e),
            },
    {
        loop
            invariant
                self.header == old(self).header,
                data.wf(),
                data.endian == Endian::Little,
                data.data@ == old(data).data@,
                sp_read_objects(old(self)@, old(data).data@, old(data).pos as int) == sp_read_objects(
                    self@,
                    data.data@,
                    data.pos as int,
                ),
            decreases data.data@.len() - data.pos,
        {
            let ghost a0 = self@;
            let ghost p0 = data.pos as int;
            match self.objects_left {
                ObjectsLeft::ObjectCount { num_extra_objects } => {
                    if num_extra_objects > 0 {
                        match self.read_object(data) {
                            Ok(()) => {},
                            Err(e) => return Err(e),
                        }
                        proof {
                            lemma_read_object_advances(a0, data.data@, p0);
                        }
                        self.objects_left = ObjectsLeft::ObjectCount { num_extra_objects: num_extra_objects - 1 };
                    } else {
                        return Ok(());
                    }
                },
                ObjectsLeft::NestingLevel { nesting_level } => {
                    if nesting_level > 0 {
                        match self.read_object(data) {
                            Ok(()) => {},
                            Err(e) => return Err(e),
                        }
                        proof {
                            lemma_read_object_advances(a0, data.data@, p0);
                        }
                    } else {
                        return Ok(());
                    }
                },
            }
        }
    }

    /// Loads a Binary Asset from its bytes (see `spec_load`). A loaded asset keeps the header
    /// it was read with: its minor version is the one stored in the header datagram, within
    /// the supported range.
    pub fn load(input: Vec<u8>) -> (r: Result<BinaryAsset, Error>)
        ensures
            match spec_load(input@) {
                Ok(a) => r matches Ok(asset) && asset@ == a,
                Err(e) => r is Err && r->Err_0 == e,
            },
            r matches Ok(asset) ==> asset.header.version.minor == u16_of(Endian::Little, input@[12], input@[13])
                && supported_version(asset.header.version),
    {
        let mut data = Reader::new(input.as_slice(), Endian::Little);
        // Read the magic and make sure we're actually parsing a BAM file
        if data.len() < 6 {
            return Err(Error::EndOfFile);
        }
        let magic = match data.read_slice(6) {
            Ok(m) => m,
            Err(e) => return Err(data_error(e)),
        };
        if !is_magic(magic) {
            return Err(Error::InvalidMagic);
        }
        // The first datagram is always the header data
        let datagram = match Datagram::new(&mut data, Endian::Little, false) {
            Ok(d) => d,
            Err(e) => return Err(data_error(e)),
        };
        let header = match Header::create(datagram) {
            Ok(h) => h,
            Err(e) => return Err(e),
        };
        if !(header.version.major == 6 && header.version.minor >= 14 && header.version.minor <= 45) {
            return Err(Error::InvalidVersion);
        }
        let mut asset = BinaryAsset::new(header);
        match asset.read_object(&mut data) {
            Ok(()) => {},
            Err(e) => return Err(e),
        }
        match asset.read_objects(&mut data) {
            Ok(()) => Ok(asset),
            Err(e) => Err(e),
        }
    }
}

/// Registering handles never drops or renames a registered type: every entry before is an
/// entry after.
pub proof fn lemma_handles_keep(types: Map<u16, Seq<char>>, d: DgView, pending: nat)
    requires
        sp_handles(types, d, pending) is Ok,
    ensures
        sp_handles(types, d, pending) matches Ok((t, _)) && forall|k: u16|
            #[trigger] types.contains_key(k) ==> t.contains_key(k) && t[k] == types[k],
    decreases d.remaining(),
{
    if pending > 0 {
        match dg_u16(d) {
            Err(_) => {},
            Ok((h, d1)) => {
                if types.contains_key(h) {
                    lemma_handles_keep(types, d1, (pending - 1) as nat);
                    assert(sp_handles(types, d, pending) == sp_handles(types, d1, (pending - 1) as nat));
                } else {
                    match dg_string(d1) {
                        Err(_) => {},
                        Ok((name, d2)) => match dg_u8(d2) {
                            Err(_) => {},
                            Ok((c, d3)) => {
                                let t1 = types.insert(h, name);
                                lemma_handles_keep(t1, d3, (pending - 1 + c) as nat);
                                let t = sp_handles(t1, d3, (pending - 1 + c) as nat)->Ok_0.0;
                                assert(sp_handles(types, d, pending) == sp_handles(t1, d3, (pending - 1 + c) as nat));
                                assert forall|k: u16| #[trigger] types.contains_key(k) implies t.contains_key(k) && t[k] == types[k] by {
                                    assert(t1.contains_key(k));
                                }
                            },
                        },
                    }
                }
            },
        }
    }
}

/// A type handle that has been read is registered, so the type of the object that follows can
/// always be looked up; and types registered before stay registered under the same name.
pub proof fn lemma_read_handle_registers(a: AssetView, d: DgView)
    requires
        sp_read_handle(a, d) is Ok,
    ensures
        sp_read_handle(a, d) matches Ok((h, a2, _)) && a2.types.contains_key(h) && forall|k: u16|
            #[trigger] a.types.contains_key(k) ==> a2.types.contains_key(k) && a2.types[k]
                == a.types[k],
{
    match dg_u16(d) {
        Err(_) => {},
        Ok((h, d1)) => {
            if !a.types.contains_key(h) {
                match dg_string(d1) {
                    Err(_) => {},
                    Ok((name, d2)) => match dg_u8(d2) {
                        Err(_) => {},
                        Ok((c, d3)) => {
                            let t1 = a.types.insert(h, name);
                            lemma_handles_keep(t1, d3, c as nat);
                            let t = sp_handles(t1, d3, c as nat)->Ok_0.0;
                            assert(t1.contains_key(h));
                            assert(t.contains_key(h));
                            assert forall|k: u16| #[trigger] a.types.contains_key(k) implies t.contains_key(k) && t[k] == a.types[k] by {
                                assert(t1.contains_key(k));
                            }
                        },
                    },
                }
            }
        },
    }
}

/// Object IDs switch to 32 bits for good once the ID 0xFFFF has been read: the flag after a
/// read is the flag before it or-ed with whether the value read was 0xFFFF; nothing else of
/// the loader changes.
pub proof fn lemma_object_id_width(a: AssetView, d: DgView)
    requires
        sp_object_id(a, d) is Ok,
    ensures
        sp_object_id(a, d) matches Ok((v, a2, d2)) && a2.long_object_id == (a.long_object_id || v
            == 0xFFFF) && a2 == (AssetView { long_object_id: a2.long_object_id, ..a }) && d2.pos
            == d.pos + (if a.long_object_id { 4int } else { 2int }),
{
}

/// Pointer-to-array IDs switch to 32 bits for good once the ID 0xFFFF has been read.
pub proof fn lemma_pta_id_width(a: AssetView, d: DgView)
    requires
        sp_pta_id(a, d) is Ok,
    ensures
        sp_pta_id(a, d) matches Ok((v, a2, d2)) && a2.long_pta_id == (a.long_pta_id || v == 0xFFFF)
            && a2 == (AssetView { long_pta_id: a2.long_pta_id, ..a }) && d2.pos == d.pos + (if a.long_pta_id {
            4int
        } else {
            2int
        }),
{
}

/// A pointer names object `id - 1`, and zero names none; before BAM 6.21 each pointer that
/// names an object announces exactly one more object to read.
pub proof fn lemma_pointer_counts(a: AssetView, d: DgView)
    requires
        sp_pointer(a, d) is Ok,
    ensures
        sp_pointer(a, d) matches Ok((p, a2, _)) && sp_object_id(a, d) matches Ok((id, a1, _)) && (
        id == 0 <==> p is None) && (id != 0 ==> p == Some((id - 1) as u32)) && match a1.objects_left {
            ObjectsLeft::ObjectCount { num_extra_objects } => a2.objects_left == (
            ObjectsLeft::ObjectCount {
                num_extra_objects: if id == 0 {
                    num_extra_objects
                } else {
                    succ(num_extra_objects)
                },
            }),
            ObjectsLeft::NestingLevel { .. } => a2.objects_left == a1.objects_left,
        },
{
}

/// A Push code and a later Pop code leave the nesting level where it was: closing undoes
/// opening, for every level.
pub proof fn lemma_push_pop(n: i32)
    ensures
        pred(succ(n)) == n,
        succ(pred(n)) == n,
{
}

} // verus!
