//! The Multifile archive format of the Panda3D engine.
//!
//! A Multifile is a header followed by Subfile index entries chained as a linked list: each
//! entry is preceded by the offset of the next one, and a zero offset ends the list. Offsets
//! are relative to the start of the data and are multiplied by the header's scale factor.
//! Lines starting with '#' may precede the archive. Subfiles with a timestamp of zero use the
//! Multifile's timestamp.

use vstd::prelude::*;

use crate::bytes::{take_u16, take_u32, DataError, Endian, Reader};
use crate::common::Version;
use crate::subfile::{
    spec_subfile, u32_when, Subfile, SubfileView, COMPRESSED, ENCRYPTED, SIGNATURE,
};

verus! {

/// Error conditions for when working with Multifile archives.
#[derive(Clone, Copy, Debug, PartialEq, Eq, Structural)]
pub enum Error {
    /// Thrown when trying to open a file or folder that doesn't exist.
    NotFound,
    /// Thrown if reading/writing tries to go out of bounds.
    EndOfFile,
    /// Thrown when unable to open a file or folder.
    PermissionDenied,
    /// Thrown if the header contains a magic number other than "pmf\0\n\r".
    InvalidMagic,
    /// Thrown if the header version is too new to be supported.
    UnknownVersion,
    /// Thrown if the chain of Subfile entries leads back to an entry already visited.
    CyclicIndex,
}

/// The error that a failed read becomes.
pub fn data_error(e: DataError) -> (r: Error)
    ensures
        r == Error::EndOfFile,
{
    Error::EndOfFile
}

/// Unique identifier of a Multifile archive: "pmf\0\n\r".
pub open spec fn magic() -> Seq<u8> {
    seq![112u8, 109u8, 102u8, 0u8, 10u8, 13u8]
}

/// Latest supported major revision.
pub const CURRENT_MAJOR: u16 = 1;
/// Latest supported minor revision.
pub const CURRENT_MINOR: u16 = 1;

/// Metadata from a Multifile header.
#[derive(Clone, Copy, Debug, PartialEq, Eq, Structural)]
pub struct Header {
    pub version: Version,
    pub scale_factor: u32,
    pub timestamp: u32,
}

/// The header stored at `p` and the position after it.
pub open spec fn spec_header(e: Endian, d: Seq<u8>, p: int) -> Result<(Header, int), Error> {
    if !(0 <= p && p + 6 <= d.len()) {
        Err(Error::EndOfFile)
    } else if d.subrange(p, p + 6) != magic() {
        Err(Error::InvalidMagic)
    } else {
        match (take_u16(e, d, p + 6), take_u16(e, d, p + 8)) {
            (Some(major), Some(minor)) => if !(major == CURRENT_MAJOR && minor <= CURRENT_MINOR) {
                Err(Error::UnknownVersion)
            } else {
                match take_u32(e, d, p + 10) {
                    None => Err(Error::EndOfFile),
                    Some(scale_factor) => match u32_when(minor >= 1, e, d, p + 14, 0) {
                        None => Err(Error::EndOfFile),
                        Some((timestamp, q)) => Ok(
                            (
                                Header {
                                    version: Version { major, minor },
                                    scale_factor,
                                    timestamp,
                                },
                                q,
                            ),
                        ),
                    },
                }
            },
            _ => Err(Error::EndOfFile),
        }
    }
}

/// The position just after the end of the line that contains `p` (its '\n'), or the end of the
/// data.
pub open spec fn line_end(d: Seq<u8>, p: int) -> int
    decreases d.len() - p,
{
    if p < 0 || p >= d.len() {
        d.len() as int
    } else if d[p] == 10 {
        p + 1
    } else {
        line_end(d, p + 1)
    }
}

/// The first position at or after `p` that holds neither a space nor a carriage return.
pub open spec fn skip_blank(d: Seq<u8>, p: int) -> int
    decreases d.len() - p,
{
    if 0 <= p && p < d.len() && (d[p] == 32 || d[p] == 13) {
        skip_blank(d, p + 1)
    } else {
        p
    }
}

/// The end of a line is after its start, and within the data.
pub proof fn lemma_line_end(d: Seq<u8>, p: int)
    requires
        0 <= p,
    ensures
        p <= line_end(d, p) || p > d.len(),
        line_end(d, p) <= d.len(),
        p < d.len() ==> p < line_end(d, p),
    decreases d.len() - p,
{
    if p < d.len() && d[p] != 10 {
        lemma_line_end(d, p + 1);
    }
}

/// Skipping blanks never moves back, nor past the end of the data.
pub proof fn lemma_skip_blank(d: Seq<u8>, p: int)
    ensures
        p <= skip_blank(d, p),
        0 <= p <= d.len() ==> skip_blank(d, p) <= d.len(),
    decreases d.len() - p,
{
    if 0 <= p && p < d.len() && (d[p] == 32 || d[p] == 13) {
        lemma_skip_blank(d, p + 1);
    }
}

/// Where the archive data starts when reading from `p`: comment lines, which start with '#',
/// are passed over together with the spaces and carriage returns that begin the next line.
pub open spec fn prefix_end(d: Seq<u8>, p: int) -> int
    decreases d.len() - p,
{
    if 0 <= p && p < d.len() && d[p] == 35 {
        let q = skip_blank(d, line_end(d, p + 1));
        proof {
            lemma_line_end(d, p + 1);
            lemma_skip_blank(d, line_end(d, p + 1));
        }
        prefix_end(d, q)
    } else {
        p
    }
}

/// Skipping the header prefix never moves back, nor past the end of the data.
pub proof fn lemma_prefix_end(d: Seq<u8>, p: int)
    requires
        0 <= p <= d.len(),
    ensures
        p <= prefix_end(d, p) <= d.len(),
    decreases d.len() - p,
{
    if 0 <= p && p < d.len() && d[p] == 35 {
        lemma_line_end(d, p + 1);
        lemma_skip_blank(d, line_end(d, p + 1));
        lemma_prefix_end(d, skip_blank(d, line_end(d, p + 1)));
    }
}

/// The archive data never starts inside a comment: where skipping the header prefix stops
/// there is no '#', or the data has ended.
pub proof fn lemma_prefix_end_not_comment(d: Seq<u8>, p: int)
    requires
        0 <= p <= d.len(),
    ensures
        prefix_end(d, p) == d.len() || d[prefix_end(d, p)] != 35,
    decreases d.len() - p,
{
    if 0 <= p && p < d.len() && d[p] == 35 {
        lemma_line_end(d, p + 1);
        lemma_skip_blank(d, line_end(d, p + 1));
        lemma_prefix_end_not_comment(d, skip_blank(d, line_end(d, p + 1)));
    }
}

/// A Subfile entry as the archive presents it: offset scaled, missing timestamp filled in.
pub open spec fn adjust(s: SubfileView, h: Header) -> SubfileView {
    SubfileView {
        offset: (s.offset * h.scale_factor) as u64,
        timestamp: if s.timestamp == 0 {
            h.timestamp
        } else {
            s.timestamp
        },
        ..s
    }
}

/// Whether a Subfile holds the archive's signature.
pub open spec fn is_signature(s: SubfileView) -> bool {
    s.flags & SIGNATURE != 0
}

/// Walks the chain of Subfile entries whose first link is at `p`, with `fuel` further links
/// allowed. Gives the entries read, in order, and the error that stopped the walk, if any.
/// With `check`, each entry must also have its data in range (a signature only needs its
/// start in range).
pub open spec fn spec_walk(
    e: Endian,
    d: Seq<u8>,
    p: int,
    h: Header,
    check: bool,
    fuel: nat,
) -> (Seq<SubfileView>, Option<Error>)
    decreases fuel,
{
    match take_u32(e, d, p) {
        None => (seq![], Some(Error::EndOfFile)),
        Some(n) => {
            let next = n * h.scale_factor;
            if next == 0 {
                (seq![], None)
            } else {
                match spec_subfile(e, d, p + 4, h.version.minor) {
                    None => (seq![], Some(Error::EndOfFile)),
                    Some((s0, _)) => {
                        let s = adjust(s0, h);
                        if check && s.offset > d.len() {
                            (seq![], Some(Error::EndOfFile))
                        } else if check && !is_signature(s) && s.offset + s.length > d.len() {
                            (seq![], Some(Error::EndOfFile))
                        } else if next > d.len() {
                            (seq![s], Some(Error::EndOfFile))
                        } else if fuel == 0 {
                            (seq![s], Some(Error::CyclicIndex))
                        } else {
                            let rest = spec_walk(e, d, next, h, check, (fuel - 1) as nat);
                            (seq![s] + rest.0, rest.1)
                        }
                    },
                }
            }
        },
    }
}

/// The view of a list of Subfiles.
pub open spec fn views(v: Seq<Subfile>) -> Seq<SubfileView> {
    v.map_values(|s: Subfile| s@)
}

/// Every Subfile's path matches its name.
pub open spec fn all_wf(v: Seq<Subfile>) -> bool {
    forall|i: int| 0 <= i < v.len() ==> #[trigger] v[i].wf()
}

/// Reads the header at the current position.
pub fn read_header(data: &mut Reader) -> (r: Result<Header, Error>)
    requires
        old(data).wf(),
    ensures
        final(data).wf(),
        final(data).data@ == old(data).data@,
        final(data).endian == old(data).endian,
        match spec_header(old(data).endian, old(data).data@, old(data).pos as int) {
            Ok((h, q)) => r == Ok::<Header, Error>(h) && final(data).pos == q,
            Err(e) => r == Err::<Header, Error>(e),
        },
{
    let ghost d = data.data@;
    let ghost e = data.endian;
    let ghost p = data.pos as int;
    let m = match data.read_slice(6) {
        Ok(s) => s,
        Err(x) => return Err(data_error(x)),
    };
    if !(m[0] == 112 && m[1] == 109 && m[2] == 102 && m[3] == 0 && m[4] == 10 && m[5] == 13) {
        assert(d.subrange(p, p + 6)[0] == m@[0]);
        assert(d.subrange(p, p + 6)[1] == m@[1]);
        assert(d.subrange(p, p + 6)[2] == m@[2]);
        assert(d.subrange(p, p + 6)[3] == m@[3]);
        assert(d.subrange(p, p + 6)[4] == m@[4]);
        assert(d.subrange(p, p + 6)[5] == m@[5]);
        return Err(Error::InvalidMagic);
    }
    assert(d.subrange(p, p + 6) =~= magic());
    let major = match data.read_u16() {
        Ok(v) => v,
        Err(x) => return Err(data_error(x)),
    };
    let minor = match data.read_u16() {
        Ok(v) => v,
        Err(x) => return Err(data_error(x)),
    };
    if !(major == CURRENT_MAJOR && minor <= CURRENT_MINOR) {
        return Err(Error::UnknownVersion);
    }
    let scale_factor = match data.read_u32() {
        Ok(v) => v,
        Err(x) => return Err(data_error(x)),
    };
    let timestamp = if minor >= 1 {
        match data.read_u32() {
            Ok(v) => v,
            Err(x) => return Err(data_error(x)),
        }
    } else {
        0
    };
    Ok(Header { version: Version { major, minor }, scale_factor, timestamp })
}

/// Where the archive data starts when reading `input` from `from` (see `prefix_end`).
pub fn skip_header_prefix(input: &[u8], from: usize) -> (end: usize)
    requires
        from <= input@.len(),
    ensures
        end == prefix_end(input@, from as int),
{
    let ghost d = input@;
    let len = input.len();
    let mut pos = from;
    while pos < len && input[pos] == 35
        invariant
            d == input@,
            len == d.len(),
            from <= pos <= len,
            prefix_end(d, from as int) == prefix_end(d, pos as int),
        decreases len - pos,
    {
        let ghost start = pos as int;
        pos = pos + 1;
        while pos < len && input[pos] != 10
            invariant
                d == input@,
                len == d.len(),
                start < pos <= len,
                line_end(d, start + 1) == line_end(d, pos as int),
            decreases len - pos,
        {
            pos = pos + 1;
        }
        if pos < len {
            pos = pos + 1;
        }
        assert(pos == line_end(d, start + 1));
        while pos < len && (input[pos] == 32 || input[pos] == 13)
            invariant
                d == input@,
                len == d.len(),
                start < pos <= len,
                skip_blank(d, line_end(d, start + 1)) == skip_blank(d, pos as int),
            decreases len - pos,
        {
            pos = pos + 1;
        }
    }
    pos
}

/// Walks the Subfile chain from the current position (see `spec_walk`, which runs with as
/// many links as there are bytes: a longer chain must revisit an entry).
pub fn walk_index(data: &mut Reader, h: Header, check: bool) -> (r: (Vec<Subfile>, Option<Error>))
    requires
        old(data).wf(),
    ensures
        views(r.0@) == spec_walk(
            old(data).endian,
            old(data).data@,
            old(data).pos as int,
            h,
            check,
            old(data).data@.len(),
        ).0,
        r.1 == spec_walk(
            old(data).endian,
            old(data).data@,
            old(data).pos as int,
            h,
            check,
            old(data).data@.len(),
        ).1,
        all_wf(r.0@),
{
    let ghost d = data.data@;
    let ghost e = data.endian;
    let ghost p0 = data.pos as int;
    let len = data.len();
    let mut items: Vec<Subfile> = Vec::new();
    let mut fuel: usize = len;
    loop
        invariant
            data.wf(),
            data.data@ == d,
            data.endian == e,
            p0 == old(data).pos,
            d == old(data).data@,
            e == old(data).endian,
            len == d.len(),
            fuel <= len,
            all_wf(items@),
            spec_walk(e, d, p0, h, check, len as nat) == ({
                let rest = spec_walk(e, d, data.pos as int, h, check, fuel as nat);
                (views(items@) + rest.0, rest.1)
            }),
        decreases fuel,
    {
        let ghost p = data.pos as int;
        let n = match data.read_u32() {
            Ok(v) => v,
            Err(_) => {
                assert(take_u32(e, d, p) is None);
                assert(spec_walk(e, d, p, h, check, fuel as nat) == (
                    Seq::<SubfileView>::empty(),
                    Some(Error::EndOfFile),
                ));
                assert(views(items@) + seq![] =~= views(items@));
                return (items, Some(Error::EndOfFile));
            },
        };
        proof {
            assert((n as int) * (h.scale_factor as int) <= 0xFFFF_FFFF * 0xFFFF_FFFF)
                by (nonlinear_arith)
                requires
                    n <= 0xFFFF_FFFF,
                    h.scale_factor <= 0xFFFF_FFFF,
            ;
        }
        let next: u64 = n as u64 * h.scale_factor as u64;
        if next == 0 {
            assert(views(items@) + seq![] =~= views(items@));
            return (items, None);
        }
        let mut s = match Subfile::load(data, h.version.minor) {
            Ok(s) => s,
            Err(_) => {
                assert(views(items@) + seq![] =~= views(items@));
                return (items, Some(Error::EndOfFile));
            },
        };
        let ghost s0 = s@;
        proof {
            assert(s.offset <= 0xFFFF_FFFF);
            assert((s.offset as int) * (h.scale_factor as int) <= 0xFFFF_FFFF * 0xFFFF_FFFF)
                by (nonlinear_arith)
                requires
                    s.offset <= 0xFFFF_FFFF,
                    h.scale_factor <= 0xFFFF_FFFF,
            ;
        }
        s.offset = s.offset * h.scale_factor as u64;
        if s.timestamp == 0 {
            s.timestamp = h.timestamp;
        }
        assert(s@ == adjust(s0, h));
        if check && s.offset > len as u64 {
            assert(views(items@) + seq![] =~= views(items@));
            return (items, Some(Error::EndOfFile));
        }
        if check && !s.flags.intersects(SIGNATURE) && s.offset + s.length as u64 > len as u64 {
            assert(views(items@) + seq![] =~= views(items@));
            return (items, Some(Error::EndOfFile));
        }
        let ghost before = items@;
        items.push(s);
        assert(views(items@) =~= views(before) + seq![adjust(s0, h)]);
        match data.set_position(next) {
            Ok(()) => {},
            Err(_) => {
                return (items, Some(Error::EndOfFile));
            },
        }
        if fuel == 0 {
            return (items, Some(Error::CyclicIndex));
        }
        fuel = fuel - 1;
        proof {
            let rest = spec_walk(e, d, next as int, h, check, fuel as nat);
            assert(views(before) + (seq![adjust(s0, h)] + rest.0) =~= views(items@) + rest.0);
        }
    }
}

/// Used for working with Multifile archives, supports both stateless and stateful operations.
#[derive(Debug)]
pub struct Multifile {
    data: Vec<u8>,
    files: Vec<Subfile>,
    version: Version,
    timestamp: u32,
}

/// A Multifile as plain values.
pub struct MultifileView {
    pub data: Seq<u8>,
    pub files: Seq<SubfileView>,
    pub version: Version,
    pub timestamp: u32,
}

impl View for Multifile {
    type V = MultifileView;

    closed spec fn view(&self) -> MultifileView {
        MultifileView {
            data: self.data@,
            files: views(self.files@),
            version: self.version,
            timestamp: self.timestamp,
        }
    }
}

/// What loading `d` from `offset` gives.
pub open spec fn spec_load(d: Seq<u8>, offset: u64) -> Result<MultifileView, Error> {
    if offset > d.len() {
        Err(Error::EndOfFile)
    } else {
        match spec_header(Endian::Little, d, prefix_end(d, offset as int)) {
            Err(e) => Err(e),
            Ok((h, q)) => {
                let w = spec_walk(Endian::Little, d, q, h, false, d.len());
                match w.1 {
                    Some(e) => Err(e),
                    None => Ok(
                        MultifileView {
                            data: d,
                            files: w.0,
                            version: h.version,
                            timestamp: h.timestamp,
                        },
                    ),
                }
            },
        }
    }
}

impl Multifile {
    /// Helper function that reads the pre-header for a given file, if any, which allows for
    /// comment lines starting with '#'. Returns the position in the stream that the actual
    /// data starts.
    pub fn parse_header_prefix(input: &[u8]) -> (end: usize)
        ensures
            end == prefix_end(input@, 0),
    {
        skip_header_prefix(input, 0)
    }

    /// Returns the metadata from a Multifile header.
    pub fn read_header(data: &mut Reader) -> (r: Result<Header, Error>)
        requires
            old(data).wf(),
        ensures
            final(data).wf(),
            final(data).data@ == old(data).data@,
            final(data).endian == old(data).endian,
            match spec_header(old(data).endian, old(data).data@, old(data).pos as int) {
                Ok((h, q)) => r == Ok::<Header, Error>(h) && final(data).pos == q,
                Err(e) => r == Err::<Header, Error>(e),
            },
    {
        read_header(data)
    }

    /// Returns the number of Subfiles currently stored in the Multifile.
    pub fn count(&mut self) -> (n: usize)
        ensures
            n == old(self)@.files.len(),
            *final(self) == *old(self),
    {
        self.files.len()
    }

    /// Loads the data from the given file and parses it into a new instance of Multifile,
    /// starting at `offset`.
    pub fn load(input: Vec<u8>, offset: u64) -> (r: Result<Multifile, Error>)
        ensures
            match spec_load(input@, offset) {
                Ok(v) => r matches Ok(m) && m@ == v,
                Err(e) => r matches Err(x) && x == e,
            },
    {
        let ghost d = input@;
        let (files, version, timestamp) = {
            let mut data = Reader::new(input.as_slice(), Endian::Little);
            match data.set_position(offset) {
                Ok(()) => {},
                Err(_) => return Err(Error::EndOfFile),
            }
            let start = skip_header_prefix(input.as_slice(), offset as usize);
            proof {
                lemma_prefix_end(d, offset as int);
            }
            match data.set_position(start as u64) {
                Ok(()) => {},
                Err(_) => return Err(Error::EndOfFile),
            }
            let header = match read_header(&mut data) {
                Ok(h) => h,
                Err(e) => return Err(e),
            };
            let (files, err) = walk_index(&mut data, header, false);
            match err {
                Some(e) => return Err(e),
                None => {},
            }
            (files, header.version, header.timestamp)
        };
        Ok(Multifile { data: input, files, version, timestamp })
    }
}


/// Whether the stateful extraction writes a Subfile: signatures and processed (compressed or
/// encrypted) data are left out.
pub open spec fn is_extractable(s: SubfileView) -> bool {
    s.flags & (SIGNATURE | COMPRESSED | ENCRYPTED) == 0
}

/// Number of Subfiles with any bit of `mask` set.
pub open spec fn count_flagged(files: Seq<SubfileView>, mask: u16) -> nat
    decreases files.len(),
{
    if files.len() == 0 {
        0
    } else {
        count_flagged(files.drop_last(), mask) + if files.last().flags & mask != 0 {
            1nat
        } else {
            0nat
        }
    }
}

/// What the one-shot extraction of `d` from `offset` visits: the Subfile entries handed over
/// for writing, in order, and the error that stopped it, if any.
pub open spec fn spec_extraction(d: Seq<u8>, offset: u64) -> (Seq<SubfileView>, Option<Error>) {
    if offset > d.len() {
        (seq![], Some(Error::EndOfFile))
    } else {
        match spec_header(Endian::Little, d, prefix_end(d, offset as int)) {
            Err(e) => (seq![], Some(e)),
            Ok((h, q)) => spec_walk(Endian::Little, d, q, h, true, d.len()),
        }
    }
}

/// The layout of a signature Subfile: the number of certificates and where their blob
/// starts, if the data holds them.
pub open spec fn spec_signature_layout(d: Seq<u8>) -> Result<(u32, int), Error> {
    match take_u32(Endian::Little, d, 0) {
        None => Err(Error::EndOfFile),
        Some(size) => if 4 + size > d.len() {
            Err(Error::EndOfFile)
        } else {
            match take_u32(Endian::Little, d, 4 + size) {
                None => Err(Error::EndOfFile),
                Some(count) => Ok((count, 8 + size)),
            }
        },
    }
}

impl Multifile {
    /// The archive's revision.
    pub fn version(&self) -> (v: Version)
        ensures
            v == self@.version,
    {
        self.version
    }

    /// The archive's modification time.
    pub fn timestamp(&self) -> (t: u32)
        ensures
            t == self@.timestamp,
    {
        self.timestamp
    }

    /// The Subfile entry at `index`.
    pub fn subfile(&self, index: usize) -> (s: &Subfile)
        requires
            index < self@.files.len(),
        ensures
            s@ == self@.files[index as int],
    {
        &self.files[index]
    }

    /// The data of the Subfile at `index`, if it lies within the archive.
    pub fn subfile_data(&self, index: usize) -> (r: Result<&[u8], Error>)
        requires
            index < self@.files.len(),
        ensures
            ({
                let s = self@.files[index as int];
                if s.offset + s.length <= self@.data.len() {
                    r matches Ok(b) && b@ == self@.data.subrange(
                        s.offset as int,
                        s.offset + s.length,
                    )
                } else {
                    r == Err::<&[u8], Error>(Error::EndOfFile)
                }
            }),
    {
        let s = &self.files[index];
        let len = self.data.len() as u64;
        if s.offset <= len && s.length as u64 <= len - s.offset {
            let start = s.offset as usize;
            let end = start + s.length as usize;
            Ok(&self.data.as_slice()[start..end])
        } else {
            Err(Error::EndOfFile)
        }
    }

    /// Indices of the Subfiles that the stateful extraction writes, in archive order.
    pub fn extractable_files(&self) -> (r: Vec<usize>)
        ensures
            forall|i: int, j: int| 0 <= i < j < r@.len() ==> r@[i] < r@[j],
            forall|i: int|
                0 <= i < r@.len() ==> r@[i] < self@.files.len() && is_extractable(
                    self@.files[r@[i] as int],
                ),
            forall|k: int|
                0 <= k < self@.files.len() && is_extractable(#[trigger] self@.files[k])
                    ==> r@.contains(k as usize),
    {
        let mut r: Vec<usize> = Vec::new();
        let mut i: usize = 0;
        while i < self.files.len()
            invariant
                i <= self@.files.len(),
                self@.files.len() == self.files@.len(),
                forall|a: int| 0 <= a < self.files@.len() ==> #[trigger] self@.files[a] == self.files@[a]@,
                forall|a: int, b: int| 0 <= a < b < r@.len() ==> r@[a] < r@[b],
                forall|a: int|
                    0 <= a < r@.len() ==> r@[a] < i && is_extractable(
                        self@.files[r@[a] as int],
                    ),
                forall|k: int|
                    0 <= k < i && is_extractable(#[trigger] self@.files[k]) ==> r@.contains(
                        k as usize,
                    ),
            decreases self@.files.len() - i,
        {
            proof {
                assert(self@.files[i as int] == self.files@[i as int]@);
            }
            if !self.files[i].flags.intersects(SIGNATURE | COMPRESSED | ENCRYPTED) {
                let ghost before = r@;
                r.push(i);
                proof {
                    assert forall|k: int|
                        0 <= k < i + 1 && is_extractable(#[trigger] self@.files[k]) implies r@.contains(
                        k as usize,
                    ) by {
                        if k < i {
                            assert(before.contains(k as usize));
                            let w = choose|w: int| 0 <= w < before.len() && before[w] == k as usize;
                            assert(r@[w] == k as usize);
                        } else {
                            assert(r@[before.len() as int] == k as usize);
                        }
                    }
                }
            }
            i = i + 1;
        }
        r
    }

    /// Numbers of compressed and of encrypted Subfiles.
    pub fn processed_counts(&self) -> (r: (usize, usize))
        ensures
            r.0 == count_flagged(self@.files, COMPRESSED),
            r.1 == count_flagged(self@.files, ENCRYPTED),
    {
        let mut compressed: usize = 0;
        let mut encrypted: usize = 0;
        let mut i: usize = 0;
        while i < self.files.len()
            invariant
                i <= self@.files.len(),
                self@.files.len() == self.files@.len(),
                forall|a: int| 0 <= a < self.files@.len() ==> #[trigger] self@.files[a] == self.files@[a]@,
                compressed == count_flagged(self@.files.subrange(0, i as int), COMPRESSED),
                encrypted == count_flagged(self@.files.subrange(0, i as int), ENCRYPTED),
                compressed <= i,
                encrypted <= i,
            decreases self@.files.len() - i,
        {
            let ghost pre = self@.files.subrange(0, i as int);
            assert(self@.files.subrange(0, i + 1).drop_last() =~= pre);
            assert(self@.files[i as int] == self.files@[i as int]@);
            if self.files[i].flags.intersects(COMPRESSED) {
                compressed = compressed + 1;
            }
            if self.files[i].flags.intersects(ENCRYPTED) {
                encrypted = encrypted + 1;
            }
            i = i + 1;
        }
        assert(self@.files.subrange(0, i as int) =~= self@.files);
        (compressed, encrypted)
    }

    /// Reads the Multifile at `offset` of `input` for a one-shot extraction: the Subfile
    /// entries to write, in order, and the error that stopped the reading, if any. An entry
    /// is handed over once its data is known to lie within `input`.
    pub fn extraction_plan(input: &[u8], offset: u64) -> (r: (Vec<Subfile>, Option<Error>))
        ensures
            (views(r.0@), r.1) == spec_extraction(input@, offset),
            all_wf(r.0@),
    {
        let ghost d = input@;
        let mut data = Reader::new(input, Endian::Little);
        match data.set_position(offset) {
            Ok(()) => {},
            Err(_) => {
                assert(views(Seq::<Subfile>::empty()) =~= Seq::<SubfileView>::empty());
                return (Vec::new(), Some(Error::EndOfFile));
            },
        }
        let start = skip_header_prefix(input, offset as usize);
        proof {
            lemma_prefix_end(d, offset as int);
        }
        match data.set_position(start as u64) {
            Ok(()) => {},
            Err(_) => {
                assert(views(Seq::<Subfile>::empty()) =~= Seq::<SubfileView>::empty());
                return (Vec::new(), Some(Error::EndOfFile));
            },
        }
        let header = match read_header(&mut data) {
            Ok(h) => h,
            Err(e) => {
                assert(views(Seq::<Subfile>::empty()) =~= Seq::<SubfileView>::empty());
                return (Vec::new(), Some(e));
            },
        };
        walk_index(&mut data, header, true)
    }

    /// Parses file data holding Multifile signatures: the number of certificates, and the
    /// position in `input` where their blob starts.
    pub fn signature_layout(input: &[u8]) -> (r: Result<(u32, usize), Error>)
        ensures
            match spec_signature_layout(input@) {
                Ok((count, start)) => r == Ok::<(u32, usize), Error>((count, start as usize)),
                Err(e) => r == Err::<(u32, usize), Error>(e),
            },
    {
        let mut data = Reader::new(input, Endian::Little);
        let size = match data.read_u32() {
            Ok(v) => v,
            Err(_) => return Err(Error::EndOfFile),
        };
        match data.set_position(4 + size as u64) {
            Ok(()) => {},
            Err(_) => return Err(Error::EndOfFile),
        }
        let count = match data.read_u32() {
            Ok(v) => v,
            Err(_) => return Err(Error::EndOfFile),
        };
        Ok((count, data.position()))
    }
}

/// Every entry the walk reads is presented with its offset scaled by the archive's scale factor
/// and with a timestamp of its own unless the archive has none: a zero timestamp stands for the
/// archive's.
pub proof fn lemma_walk_adjusted(e: Endian, d: Seq<u8>, p: int, h: Header, check: bool, fuel: nat)
    ensures
        forall|i: int|
            0 <= i < spec_walk(e, d, p, h, check, fuel).0.len() ==> (#[trigger] spec_walk(
                e,
                d,
                p,
                h,
                check,
                fuel,
            ).0[i].timestamp != 0 || h.timestamp == 0),
        h.scale_factor > 0 ==> forall|i: int|
            0 <= i < spec_walk(e, d, p, h, check, fuel).0.len() ==> (#[trigger] spec_walk(
                e,
                d,
                p,
                h,
                check,
                fuel,
            ).0[i].offset as int) % (h.scale_factor as int) == 0,
    decreases fuel,
{
    let w = spec_walk(e, d, p, h, check, fuel);
    match take_u32(e, d, p) {
        None => {},
        Some(n) => {
            let next = n * h.scale_factor;
            if next != 0 {
                match spec_subfile(e, d, p + 4, h.version.minor) {
                    None => {},
                    Some((s0, _)) => {
                        let s = adjust(s0, h);
                        assert(s.offset == s0.offset * h.scale_factor) by (nonlinear_arith)
                            requires s.offset == (s0.offset * h.scale_factor) as u64, s0.offset <= 0xFFFF_FFFF, h.scale_factor <= 0xFFFF_FFFF;
                        if h.scale_factor > 0 {
                            assert((s0.offset * h.scale_factor) % (h.scale_factor as int) == 0) by (nonlinear_arith)
                                requires h.scale_factor > 0;
                        }
                        if !(check && s.offset > d.len()) && !(check && !is_signature(s) && s.offset + s.length > d.len())
                            && !(next > d.len()) && fuel > 0 {
                            lemma_walk_adjusted(e, d, next, h, check, (fuel - 1) as nat);
                            let rest = spec_walk(e, d, next, h, check, (fuel - 1) as nat);
                            assert(w.0 == seq![s] + rest.0);
                            assert forall|i: int| 0 <= i < w.0.len() implies (#[trigger] w.0[i].timestamp != 0 || h.timestamp == 0) by {
                                if i > 0 {
                                    assert(w.0[i] == rest.0[i - 1]);
                                }
                            }
                            if h.scale_factor > 0 {
                                assert forall|i: int| 0 <= i < w.0.len() implies (#[trigger] w.0[i].offset as int) % (h.scale_factor as int) == 0 by {
                                    if i > 0 {
                                        assert(w.0[i] == rest.0[i - 1]);
                                    }
                                }
                            }
                        }
                    },
                }
            }
        },
    }
}

/// A loaded archive presents a timestamp for every Subfile unless the archive itself has
/// none: a Subfile whose entry stores zero takes the archive's.
pub proof fn lemma_load_timestamps(d: Seq<u8>, offset: u64)
    requires
        spec_load(d, offset) is Ok,
    ensures
        spec_load(d, offset) matches Ok(m) && forall|i: int|
            0 <= i < m.files.len() ==> (#[trigger] m.files[i].timestamp != 0 || m.timestamp == 0),
{
    match spec_header(Endian::Little, d, prefix_end(d, offset as int)) {
        Err(_) => {},
        Ok((h, q)) => {
            lemma_walk_adjusted(Endian::Little, d, q, h, false, d.len());
        },
    }
}

} // verus!
