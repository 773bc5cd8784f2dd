//! Entries of a Multifile archive: the per-file index header and its attribute flags.

use vstd::prelude::*;

use crate::bytes::{take_u16, take_u32, DataError, Endian, Reader};
use crate::text::{latin1_chars, string_from_latin1};

verus! {

/// Attribute bits of a Subfile.
#[derive(Clone, Copy, Debug, Default, PartialEq, Eq, Structural)]
pub struct Flags {
    pub bits: u16,
}

/// The Subfile has been "deleted" from the Multifile, and should be ignored.
pub const DELETED: u16 = 1;
/// The Subfile has a corrupt index entry.
pub const INDEX_INVALID: u16 = 2;
/// The Subfile has invalid data associated.
pub const DATA_INVALID: u16 = 4;
/// The Subfile is compressed.
pub const COMPRESSED: u16 = 8;
/// The Subfile is encrypted.
pub const ENCRYPTED: u16 = 16;
/// The Subfile holds the certificate used to sign the Multifile.
pub const SIGNATURE: u16 = 32;
/// The Subfile contains text instead of binary data.
pub const TEXT: u16 = 64;
/// Every defined attribute bit.
pub const ALL_FLAGS: u16 = 127;
/// The bits that mark processed (compressed or encrypted) data.
pub const PROCESSED: u16 = 24;

impl Flags {
    /// Keeps the defined bits of `bits` and drops the rest.
    pub fn from_bits_truncate(bits: u16) -> (f: Flags)
        ensures
            f.bits == bits & ALL_FLAGS,
    {
        Flags { bits: bits & ALL_FLAGS }
    }

    /// Whether any bit of `mask` is set.
    pub fn intersects(&self, mask: u16) -> (r: bool)
        ensures
            r == (self.bits & mask != 0),
    {
        self.bits & mask != 0
    }

    /// Whether every bit of `mask` is set.
    pub fn contains(&self, mask: u16) -> (r: bool)
        ensures
            r == (self.bits & mask == mask),
    {
        self.bits & mask == mask
    }
}

/// The character an obfuscated name byte stands for: 255 minus the byte.
pub open spec fn unmask(b: u8) -> u8 {
    (255 - b) as u8
}

/// Name bytes with the obfuscation removed.
pub open spec fn unmask_all(s: Seq<u8>) -> Seq<u8> {
    Seq::new(s.len(), |i: int| unmask(s[i]))
}

/// A Subfile index entry as plain values.
pub struct SubfileView {
    pub offset: u64,
    pub length: u32,
    pub flags: u16,
    pub original_length: u32,
    pub timestamp: u32,
    pub name: Seq<u8>,
    /// The path as text.
    pub path: Seq<char>,
}

/// A Subfile index entry: where the file's data lies and what it is.
#[derive(Debug)]
pub struct Subfile {
    /// Offset of the data from the start of the file.
    pub offset: u64,
    /// Length of the stored data.
    pub length: u32,
    pub flags: Flags,
    /// Length of the data once decompressed or decrypted.
    pub original_length: u32,
    /// Modification time; zero means that of the Multifile.
    pub timestamp: u32,
    /// The path, one byte per character.
    pub name: Vec<u8>,
    /// The path as text.
    pub path: String,
}

impl View for Subfile {
    type V = SubfileView;

    open spec fn view(&self) -> SubfileView {
        SubfileView {
            offset: self.offset,
            length: self.length,
            flags: self.flags.bits,
            original_length: self.original_length,
            timestamp: self.timestamp,
            name: self.name@,
            path: self.path@,
        }
    }
}

/// A 32-bit value that is present only when `cond` holds; `dflt` stands in otherwise.
pub open spec fn u32_when(cond: bool, e: Endian, d: Seq<u8>, p: int, dflt: u32) -> Option<(u32, int)> {
    if cond {
        match take_u32(e, d, p) {
            Some(v) => Some((v, p + 4)),
            None => None,
        }
    } else {
        Some((dflt, p))
    }
}

/// The Subfile entry stored at `p` (the data offset field), and the position after it, for a
/// Multifile of the given minor revision.
pub open spec fn spec_subfile(e: Endian, d: Seq<u8>, p: int, minor: u16) -> Option<(SubfileView, int)> {
    match (take_u32(e, d, p), take_u32(e, d, p + 4), take_u16(e, d, p + 8)) {
        (Some(offset), Some(length), Some(attr)) => {
            let flags = attr & ALL_FLAGS;
            match u32_when(flags & PROCESSED != 0, e, d, p + 10, length) {
                None => None,
                Some((original_length, q1)) => match u32_when(minor >= 1, e, d, q1, 0) {
                    None => None,
                    Some((timestamp, q2)) => match take_u16(e, d, q2) {
                        None => None,
                        Some(n) => if q2 + 2 + n <= d.len() {
                            Some(
                                (
                                    SubfileView {
                                        offset: offset as u64,
                                        length,
                                        flags,
                                        original_length,
                                        timestamp,
                                        name: unmask_all(d.subrange(q2 + 2, q2 + 2 + n)),
                                        path: latin1_chars(unmask_all(d.subrange(q2 + 2, q2 + 2 + n))),
                                    },
                                    q2 + 2 + n,
                                ),
                            )
                        } else {
                            None
                        },
                    },
                },
            }
        },
        _ => None,
    }
}

/// Removes the obfuscation from name bytes.
pub fn unmask_bytes(raw: &[u8]) -> (name: Vec<u8>)
    ensures
        name@ == unmask_all(raw@),
{
    let mut name: Vec<u8> = Vec::new();
    let mut i: usize = 0;
    while i < raw.len()
        invariant
            i <= raw@.len(),
            name@ == unmask_all(raw@.subrange(0, i as int)),
        decreases raw@.len() - i,
    {
        name.push(255 - raw[i]);
        i = i + 1;
        assert(unmask_all(raw@.subrange(0, i as int)) =~= unmask_all(
            raw@.subrange(0, i - 1),
        ).push((255 - raw@[i - 1]) as u8));
    }
    assert(raw@.subrange(0, raw@.len() as int) =~= raw@);
    name
}

impl Subfile {
    /// The attribute bits as flags.
    pub fn attributes_flags(&self) -> (f: Flags)
        ensures
            f.bits == self.flags.bits,
    {
        self.flags
    }

    /// The path text matches the name bytes.
    pub open spec fn wf(&self) -> bool {
        self.path@ == latin1_chars(self.name@)
    }

    /// Reads one Subfile index entry at the current position.
    #[verifier::spinoff_prover]
    #[verifier::rlimit(40)]
    pub fn load(data: &mut Reader, minor: u16) -> (r: Result<Subfile, DataError>)
        requires
            old(data).wf(),
        ensures
            final(data).wf(),
            final(data).data@ == old(data).data@,
            final(data).endian == old(data).endian,
            match spec_subfile(old(data).endian, old(data).data@, old(data).pos as int, minor) {
                Some((v, q)) => r matches Ok(s) && s@ == v && s.wf() && final(data).pos == q,
                None => r == Err::<Subfile, DataError>(DataError::EndOfFile),
            },
    {
        let ghost d = data.data@;
        let ghost e = data.endian;
        let ghost p = data.pos as int;
        let offset = match data.read_u32() {
            Ok(v) => v,
            Err(x) => return Err(x),
        };
        let length = match data.read_u32() {
            Ok(v) => v,
            Err(x) => return Err(x),
        };
        let attr = match data.read_u16() {
            Ok(v) => v,
            Err(x) => return Err(x),
        };
        let flags = Flags::from_bits_truncate(attr);
        assert(take_u32(e, d, p) == Some(offset) && take_u32(e, d, p + 4) == Some(length)
            && take_u16(e, d, p + 8) == Some(attr) && data.pos == p + 10);
        let original_length = if flags.intersects(PROCESSED) {
            match data.read_u32() {
                Ok(v) => v,
                Err(x) => return Err(x),
            }
        } else {
            length
        };
        let ghost q1 = data.pos as int;
        assert(u32_when(flags.bits & PROCESSED != 0, e, d, p + 10, length) == Some(
            (original_length, q1),
        ));
        let timestamp = if minor >= 1 {
            match data.read_u32() {
                Ok(v) => v,
                Err(x) => return Err(x),
            }
        } else {
            0
        };
        let ghost q2 = data.pos as int;
        assert(u32_when(minor >= 1, e, d, q1, 0) == Some((timestamp, q2)));
        let name_length = match data.read_u16() {
            Ok(v) => v,
            Err(x) => return Err(x),
        };
        let raw = match data.read_slice(name_length as usize) {
            Ok(s) => s,
            Err(x) => return Err(x),
        };
        let name = unmask_bytes(raw);
        let path = string_from_latin1(name.as_slice());
        Ok(
            Subfile {
                offset: offset as u64,
                length,
                flags,
                original_length,
                timestamp,
                name,
                path,
            },
        )
    }
}

/// Unmasking undoes itself: unmasking an unmasked name gives the stored bytes back, so the
/// same operation both hides and reveals a name.
pub proof fn lemma_unmask_involution(s: Seq<u8>)
    ensures
        unmask_all(unmask_all(s)) == s,
{
    assert(unmask_all(unmask_all(s)) =~= s);
}

/// The layout of an index entry: the data offset, the stored length and the attributes come
/// first. An entry whose data is compressed or encrypted then stores its original length, and
/// the timestamp (from revision 1 on) and the name follow it; any other entry stores no
/// original length, which is then its stored length, and the timestamp follows the attributes.
/// The entry ends after its name.
pub proof fn lemma_subfile_layout(e: Endian, d: Seq<u8>, p: int, minor: u16)
    ensures
        spec_subfile(e, d, p, minor) matches Some((v, q)) ==> {
            let attr = take_u16(e, d, p + 8).unwrap();
            let processed = attr & COMPRESSED != 0 || attr & ENCRYPTED != 0;
            let t = if processed { p + 14 } else { p + 10 };
            let n = if minor >= 1 { t + 4 } else { t };
            &&& v.offset == take_u32(e, d, p).unwrap()
            &&& v.length == take_u32(e, d, p + 4).unwrap()
            &&& v.flags == attr & ALL_FLAGS
            &&& (processed ==> v.original_length == take_u32(e, d, p + 10).unwrap())
            &&& (!processed ==> v.original_length == v.length)
            &&& (minor >= 1 ==> v.timestamp == take_u32(e, d, t).unwrap())
            &&& (minor < 1 ==> v.timestamp == 0)
            &&& v.name.len() == take_u16(e, d, n).unwrap()
            &&& q == n + 2 + v.name.len()
            &&& v.name == unmask_all(d.subrange(n + 2, q))
        },
{
    if let (Some(_), Some(_), Some(attr)) = (take_u32(e, d, p), take_u32(e, d, p + 4), take_u16(e, d, p + 8)) {
        let flags = attr & ALL_FLAGS;
        assert((flags & PROCESSED != 0) == (attr & COMPRESSED != 0 || attr & ENCRYPTED != 0)) by (bit_vector)
            requires flags == attr & 127u16, PROCESSED == 24u16, COMPRESSED == 8u16, ENCRYPTED == 16u16;
    }
}

} // verus!
