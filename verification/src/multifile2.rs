//! Multifile archives held in memory: each Subfile's data is copied out, and Subfiles are
//! kept sorted by path, a later entry with the same path replacing an earlier one.

use vstd::prelude::*;

use crate::bytes::{DataError, Endian, Reader};
use crate::multifile;
use crate::multifile::{all_wf, spec_header, spec_walk, views};
use crate::subfile::{Flags, Subfile as SubfileHeader, SubfileView, COMPRESSED, ENCRYPTED, SIGNATURE};
use crate::text::latin1_chars;

pub use crate::common::Version;
pub use crate::multifile::Header;

verus! {

/// Error conditions when working with Multifile archives.
#[derive(Clone, Copy, Debug, PartialEq, Eq, Structural)]
pub enum Error {
    /// Thrown if trying to read the file out of its current bounds.
    EndOfFile,
    /// Thrown if the header contains a magic number other than "pmf\0\n\r".
    InvalidMagic,
    /// Thrown if the header version is too new to be supported.
    UnknownVersion,
    /// Thrown if the chain of Subfile entries leads back to an entry already visited.
    CyclicIndex,
}

/// The error of this module that an error of the Multifile index reader stands for.
pub open spec fn spec_convert(e: multifile::Error) -> Error {
    match e {
        multifile::Error::InvalidMagic => Error::InvalidMagic,
        multifile::Error::UnknownVersion => Error::UnknownVersion,
        multifile::Error::CyclicIndex => Error::CyclicIndex,
        _ => Error::EndOfFile,
    }
}

pub fn convert(e: multifile::Error) -> (r: Error)
    ensures
        r == spec_convert(e),
{
    match e {
        multifile::Error::InvalidMagic => Error::InvalidMagic,
        multifile::Error::UnknownVersion => Error::UnknownVersion,
        multifile::Error::CyclicIndex => Error::CyclicIndex,
        _ => Error::EndOfFile,
    }
}

/// The error that a failed read becomes.
pub fn data_error(e: DataError) -> (r: Error)
    ensures
        r == Error::EndOfFile,
{
    Error::EndOfFile
}

/// Lexicographic order of byte strings: a proper prefix comes first.
pub open spec fn seq_lt(a: Seq<u8>, b: Seq<u8>) -> bool
    decreases a.len(),
{
    if a.len() == 0 {
        b.len() > 0
    } else if b.len() == 0 {
        false
    } else if a[0] < b[0] {
        true
    } else if a[0] > b[0] {
        false
    } else {
        seq_lt(a.drop_first(), b.drop_first())
    }
}

/// `seq_lt` is a strict total order: exactly one of `a < b`, `a == b`, `b < a` holds.
pub proof fn lemma_seq_lt_trichotomy(a: Seq<u8>, b: Seq<u8>)
    ensures
        seq_lt(a, b) ==> !seq_lt(b, a) && a != b,
        !seq_lt(a, b) && a != b ==> seq_lt(b, a),
    decreases a.len(),
{
    if a.len() > 0 && b.len() > 0 && a[0] == b[0] {
        lemma_seq_lt_trichotomy(a.drop_first(), b.drop_first());
        if a.drop_first() == b.drop_first() {
            assert(a =~= seq![a[0]] + a.drop_first());
            assert(b =~= seq![b[0]] + b.drop_first());
        }
    }
    if a.len() == 0 && b.len() == 0 {
        assert(a =~= b);
    }
}

/// `seq_lt` is transitive.
pub proof fn lemma_seq_lt_transitive(a: Seq<u8>, b: Seq<u8>, c: Seq<u8>)
    requires
        seq_lt(a, b),
        seq_lt(b, c),
    ensures
        seq_lt(a, c),
    decreases a.len(),
{
    if a.len() > 0 && b.len() > 0 && c.len() > 0 && a[0] == b[0] && b[0] == c[0] {
        lemma_seq_lt_transitive(a.drop_first(), b.drop_first(), c.drop_first());
    }
}

/// A stored Subfile as plain values.
pub struct StoredView {
    pub attributes: u16,
    pub original_length: u32,
    pub timestamp: u32,
    pub data: Seq<u8>,
}

/// A Subfile with its data.
#[derive(Debug)]
pub struct Subfile {
    pub attributes: Flags,
    pub original_length: u32,
    pub timestamp: u32,
    pub data: Vec<u8>,
}

impl View for Subfile {
    type V = StoredView;

    open spec fn view(&self) -> StoredView {
        StoredView {
            attributes: self.attributes.bits,
            original_length: self.original_length,
            timestamp: self.timestamp,
            data: self.data@,
        }
    }
}

/// Inserts `(k, v)` into a list sorted by key, replacing the entry with key `k` if there is
/// one.
pub open spec fn spec_insert<V>(l: Seq<(Seq<u8>, V)>, k: Seq<u8>, v: V) -> Seq<(Seq<u8>, V)>
    decreases l.len(),
{
    if l.len() == 0 {
        seq![(k, v)]
    } else if l[0].0 == k {
        seq![(k, v)] + l.drop_first()
    } else if seq_lt(k, l[0].0) {
        seq![(k, v)] + l
    } else {
        seq![l[0]] + spec_insert(l.drop_first(), k, v)
    }
}

/// Keys strictly increase along the list.
pub open spec fn sorted_keys<V>(l: Seq<(Seq<u8>, V)>) -> bool {
    forall|i: int, j: int| 0 <= i < j < l.len() ==> seq_lt(l[i].0, l[j].0)
}

/// One path with its Subfile.
#[derive(Debug)]
pub struct FileEntry {
    /// The path, one byte per character.
    pub key: Vec<u8>,
    /// The path as text.
    pub name: String,
    pub file: Subfile,
}

/// Subfiles by path, in path order: a list kept sorted by key. vstd states what a `BTreeMap`
/// holds only for key types whose ordering it knows (the integers), not for byte strings or
/// `String`, so a sorted list is what lets insertion and lookup be proved here.
#[derive(Debug)]
pub struct FileMap {
    entries: Vec<FileEntry>,
}

pub open spec fn entry_view(e: FileEntry) -> (Seq<u8>, StoredView) {
    (e.key@, e.file@)
}

impl View for FileMap {
    type V = Seq<(Seq<u8>, StoredView)>;

    closed spec fn view(&self) -> Seq<(Seq<u8>, StoredView)> {
        self.entries@.map_values(|e: FileEntry| entry_view(e))
    }
}

/// Whether `a` orders before `b`.
pub fn key_less(a: &[u8], b: &[u8]) -> (r: bool)
    ensures
        r == seq_lt(a@, b@),
{
    let mut i: usize = 0;
    assert(a@.skip(0) =~= a@);
    assert(b@.skip(0) =~= b@);
    while i < a.len() && i < b.len() && a[i] == b[i]
        invariant
            i <= a@.len(),
            i <= b@.len(),
            seq_lt(a@, b@) == seq_lt(a@.skip(i as int), b@.skip(i as int)),
        decreases a@.len() - i,
    {
        assert(a@.skip(i as int).drop_first() =~= a@.skip(i + 1));
        assert(b@.skip(i as int).drop_first() =~= b@.skip(i + 1));
        i = i + 1;
    }
    if i == a.len() {
        i < b.len()
    } else if i == b.len() {
        false
    } else {
        a[i] < b[i]
    }
}

/// Whether the two byte strings are equal.
pub fn key_equal(a: &[u8], b: &[u8]) -> (r: bool)
    ensures
        r == (a@ == b@),
{
    if a.len() != b.len() {
        return false;
    }
    let mut i: usize = 0;
    while i < a.len()
        invariant
            i <= a@.len(),
            a@.len() == b@.len(),
            a@.subrange(0, i as int) == b@.subrange(0, i as int),
        decreases a@.len() - i,
    {
        if a[i] != b[i] {
            assert(a@[i as int] != b@[i as int]);
            return false;
        }
        assert(a@.subrange(0, i + 1) =~= a@.subrange(0, i as int).push(a@[i as int]));
        assert(b@.subrange(0, i + 1) =~= b@.subrange(0, i as int).push(b@[i as int]));
        i = i + 1;
    }
    assert(a@ =~= a@.subrange(0, i as int));
    assert(b@ =~= b@.subrange(0, i as int));
    true
}

impl FileMap {
    /// Names match keys: the name of each entry is its key read one character per byte, so
    /// the view, which lists keys and Subfiles, determines the names.
    pub closed spec fn wf(&self) -> bool {
        forall|i: int|
            0 <= i < self.entries@.len() ==> #[trigger] self.entries@[i].name@ == latin1_chars(
                self.entries@[i].key@,
            )
    }

    pub fn new() -> (m: FileMap)
        ensures
            m@ == Seq::<(Seq<u8>, StoredView)>::empty(),
            m.wf(),
    {
        let m = FileMap { entries: Vec::new() };
        assert(m@ =~= Seq::<(Seq<u8>, StoredView)>::empty());
        m
    }

    pub fn len(&self) -> (n: usize)
        ensures
            n == self@.len(),
    {
        self.entries.len()
    }

    /// The entry at `index`.
    pub fn entry(&self, index: usize) -> (e: &FileEntry)
        requires
            index < self@.len(),
            self.wf(),
        ensures
            entry_view(*e) == self@[index as int],
            e.name@ == latin1_chars(e.key@),
    {
        &self.entries[index]
    }

    /// Inserts a Subfile under its path, replacing any Subfile with the same path.
    pub fn insert(&mut self, key: Vec<u8>, name: String, file: Subfile)
        requires
            old(self).wf(),
            name@ == latin1_chars(key@),
        ensures
            final(self).wf(),
            final(self)@ == spec_insert(old(self)@, key@, file@),
    {
        let ghost l = self@;
        let ghost k = key@;
        let ghost v = file@;
        let mut i: usize = 0;
        while i < self.entries.len() && key_less(self.entries[i].key.as_slice(), key.as_slice())
            invariant
                i <= self.entries@.len(),
                self@ == l,
                l.len() == self.entries@.len(),
                forall|j: int| 0 <= j < i ==> seq_lt(#[trigger] l[j].0, k),
                key@ == k,
            decreases self.entries@.len() - i,
        {
            i = i + 1;
        }
        proof {
            lemma_insert_at(l, k, v, i as int);
        }
        let entry = FileEntry { key, name, file };
        let ghost ev = entry_view(entry);
        if i < self.entries.len() && key_equal(self.entries[i].key.as_slice(), entry.key.as_slice()) {
            self.entries.set(i, entry);
            assert(self@ =~= l.take(i as int) + seq![(k, v)] + l.skip(i + 1));
        } else {
            self.entries.insert(i, entry);
            assert(self@ =~= l.take(i as int) + seq![(k, v)] + l.skip(i as int));
        }
    }
}

/// Inserting into a sorted list puts the entry after the keys that order before it.
proof fn lemma_insert_at<V>(l: Seq<(Seq<u8>, V)>, k: Seq<u8>, v: V, i: int)
    requires
        0 <= i <= l.len(),
        forall|j: int| 0 <= j < i ==> seq_lt(#[trigger] l[j].0, k),
        i < l.len() ==> !seq_lt(l[i].0, k),
    ensures
        i < l.len() && l[i].0 == k ==> spec_insert(l, k, v) == l.take(i) + seq![(k, v)] + l.skip(i + 1),
        !(i < l.len() && l[i].0 == k) ==> spec_insert(l, k, v) == l.take(i) + seq![(k, v)] + l.skip(i),
    decreases i,
{
    if i == 0 {
        if l.len() > 0 && l[0].0 != k {
            lemma_seq_lt_trichotomy(l[0].0, k);
        }
        assert(l.skip(0) =~= l);
        assert(l.take(0) + seq![(k, v)] =~= seq![(k, v)]);
        if l.len() > 0 {
            assert(l.skip(1) =~= l.drop_first());
        }
    } else {
        lemma_seq_lt_trichotomy(l[0].0, k);
        let t = l.drop_first();
        assert forall|j: int| 0 <= j < i - 1 implies seq_lt(#[trigger] t[j].0, k) by {
            assert(t[j] == l[j + 1]);
        }
        lemma_insert_at(t, k, v, i - 1);
        assert(l.take(i) =~= seq![l[0]] + t.take(i - 1));
        assert(l.skip(i) =~= t.skip(i - 1));
        if i < l.len() {
            assert(l.skip(i + 1) =~= t.skip(i));
            assert(l[i] == t[i - 1]);
        }
    }
}

/// Inserting keeps a list sorted.
pub proof fn lemma_insert_sorted<V>(l: Seq<(Seq<u8>, V)>, k: Seq<u8>, v: V)
    requires
        sorted_keys(l),
    ensures
        sorted_keys(spec_insert(l, k, v)),
    decreases l.len(),
{
    if l.len() > 0 {
        lemma_seq_lt_trichotomy(l[0].0, k);
        if l[0].0 == k {
            let r = spec_insert(l, k, v);
            assert forall|i: int, j: int| 0 <= i < j < r.len() implies seq_lt(r[i].0, r[j].0) by {
                assert(r[i].0 == l[i].0);
                assert(r[j].0 == l[j].0);
            }
        } else if seq_lt(k, l[0].0) {
            let r = spec_insert(l, k, v);
            assert forall|i: int, j: int| 0 <= i < j < r.len() implies seq_lt(r[i].0, r[j].0) by {
                if i == 0 {
                    if j > 1 {
                        lemma_seq_lt_transitive(k, l[0].0, l[j - 1].0);
                    }
                } else {
                    assert(r[i] == l[i - 1]);
                }
            }
        } else {
            let t = l.drop_first();
            assert(sorted_keys(t)) by {
                assert forall|i: int, j: int| 0 <= i < j < t.len() implies seq_lt(t[i].0, t[j].0) by {
                    assert(t[i] == l[i + 1] && t[j] == l[j + 1]);
                }
            }
            lemma_insert_sorted(t, k, v);
            lemma_insert_keys(t, k, v);
            let r = spec_insert(l, k, v);
            let rt = spec_insert(t, k, v);
            assert forall|i: int, j: int| 0 <= i < j < r.len() implies seq_lt(r[i].0, r[j].0) by {
                if i == 0 {
                    assert(r[j] == rt[j - 1]);
                    if rt[j - 1].0 == k {
                        lemma_seq_lt_trichotomy(k, l[0].0);
                    } else {
                        let w = choose|w: int| 0 <= w < t.len() && t[w].0 == rt[j - 1].0;
                        assert(t[w] == l[w + 1]);
                    }
                } else {
                    assert(r[i] == rt[i - 1] && r[j] == rt[j - 1]);
                }
            }
        }
    }
}

/// A read after a write gives back what was written: after inserting `(k, v)` the list holds
/// `(k, v)`, and every entry with another key is still there.
pub proof fn lemma_insert_lookup<V>(l: Seq<(Seq<u8>, V)>, k: Seq<u8>, v: V)
    ensures
        spec_insert(l, k, v).contains((k, v)),
        forall|w: int| 0 <= w < l.len() && l[w].0 != k ==> spec_insert(l, k, v).contains(#[trigger] l[w]),
    decreases l.len(),
{
    let r = spec_insert(l, k, v);
    if l.len() == 0 {
        assert(r[0] == (k, v));
    } else if l[0].0 == k {
        assert(r[0] == (k, v));
        assert forall|w: int| 0 <= w < l.len() && l[w].0 != k implies r.contains(#[trigger] l[w]) by {
            assert(r[w] == l[w]);
        }
    } else if seq_lt(k, l[0].0) {
        assert(r[0] == (k, v));
        assert forall|w: int| 0 <= w < l.len() && l[w].0 != k implies r.contains(#[trigger] l[w]) by {
            assert(r[w + 1] == l[w]);
        }
    } else {
        let t = l.drop_first();
        lemma_insert_lookup(t, k, v);
        let rt = spec_insert(t, k, v);
        assert(r == seq![l[0]] + rt);
        let i = choose|i: int| 0 <= i < rt.len() && rt[i] == (k, v);
        assert(r[i + 1] == (k, v));
        assert forall|w: int| 0 <= w < l.len() && l[w].0 != k implies r.contains(#[trigger] l[w]) by {
            if w == 0 {
                assert(r[0] == l[0]);
            } else {
                assert(t[w - 1] == l[w]);
                assert(rt.contains(t[w - 1]));
                let j = choose|j: int| 0 <= j < rt.len() && rt[j] == t[w - 1];
                assert(r[j + 1] == l[w]);
            }
        }
    }
}

/// Every key after an insertion is the inserted key or a key that was there before.
pub proof fn lemma_insert_keys<V>(l: Seq<(Seq<u8>, V)>, k: Seq<u8>, v: V)
    ensures
        forall|i: int|
            0 <= i < spec_insert(l, k, v).len() ==> (#[trigger] spec_insert(l, k, v)[i]).0 == k
                || exists|w: int| 0 <= w < l.len() && l[w].0 == spec_insert(l, k, v)[i].0,
    decreases l.len(),
{
    let r = spec_insert(l, k, v);
    if l.len() > 0 {
        if l[0].0 == k {
            assert forall|i: int| 0 <= i < r.len() implies (#[trigger] r[i]).0 == k || exists|
                w: int,
            | 0 <= w < l.len() && l[w].0 == r[i].0 by {
                if i > 0 {
                    assert(r[i] == l[i]);
                }
            }
        } else if seq_lt(k, l[0].0) {
            assert forall|i: int| 0 <= i < r.len() implies (#[trigger] r[i]).0 == k || exists|
                w: int,
            | 0 <= w < l.len() && l[w].0 == r[i].0 by {
                if i > 0 {
                    assert(r[i] == l[i - 1]);
                }
            }
        } else {
            let t = l.drop_first();
            lemma_insert_keys(t, k, v);
            let rt = spec_insert(t, k, v);
            assert forall|i: int| 0 <= i < r.len() implies (#[trigger] r[i]).0 == k || exists|
                w: int,
            | 0 <= w < l.len() && l[w].0 == r[i].0 by {
                if i == 0 {
                    assert(l[0].0 == r[0].0);
                } else {
                    assert(r[i] == rt[i - 1]);
                    if rt[i - 1].0 != k {
                        let w = choose|w: int| 0 <= w < t.len() && t[w].0 == rt[i - 1].0;
                        assert(l[w + 1] == t[w]);
                    }
                }
            }
        }
    }
}


/// What a Subfile entry stores: its attributes, its lengths and timestamp with the defaults
/// filled in, and its data taken from `d`.
pub open spec fn stored(h: SubfileView, d: Seq<u8>) -> StoredView {
    StoredView {
        attributes: h.flags,
        original_length: if h.original_length == 0 {
            h.length
        } else {
            h.original_length
        },
        timestamp: h.timestamp,
        data: d.subrange(h.offset as int, h.offset + h.length),
    }
}

/// Whether the data of a Subfile entry lies within `d`.
pub open spec fn in_range(h: SubfileView, d: Seq<u8>) -> bool {
    h.offset + h.length <= d.len()
}

/// The header and the Subfile entries (offsets scaled, timestamps filled in) of the Multifile
/// at `p`.
pub open spec fn spec_metadata(d: Seq<u8>, p: int) -> Result<(Header, Seq<SubfileView>), Error> {
    match spec_header(Endian::Little, d, p) {
        Err(e) => Err(spec_convert(e)),
        Ok((h, q)) => {
            let w = spec_walk(Endian::Little, d, q, h, false, d.len());
            match w.1 {
                Some(e) => Err(spec_convert(e)),
                None => Ok((h, w.0)),
            }
        },
    }
}

/// The sorted Subfile list built from the entries, in order.
pub open spec fn spec_files(d: Seq<u8>, hs: Seq<SubfileView>) -> Result<Seq<(Seq<u8>, StoredView)>, Error>
    decreases hs.len(),
{
    if hs.len() == 0 {
        Ok(seq![])
    } else {
        match spec_files(d, hs.drop_last()) {
            Err(e) => Err(e),
            Ok(l) => if in_range(hs.last(), d) {
                Ok(spec_insert(l, hs.last().name, stored(hs.last(), d)))
            } else {
                Err(Error::EndOfFile)
            },
        }
    }
}

/// A Multifile as plain values.
pub struct MultifileView {
    pub header: Header,
    pub files: Seq<(Seq<u8>, StoredView)>,
}

/// What loading `d` from `offset` gives.
pub open spec fn spec_load(d: Seq<u8>, offset: u64) -> Result<MultifileView, Error> {
    if offset > d.len() {
        Err(Error::EndOfFile)
    } else {
        match spec_metadata(d, offset as int) {
            Err(e) => Err(e),
            Ok((h, hs)) => match spec_files(d, hs) {
                Err(e) => Err(e),
                Ok(l) => Ok(MultifileView { header: h, files: l }),
            },
        }
    }
}

/// The header and Subfile entries of a Multifile.
#[derive(Debug)]
pub struct Metadata {
    pub header: Header,
    pub files: Vec<SubfileHeader>,
}

/// A Multifile with the data of each Subfile held in memory.
#[derive(Debug)]
pub struct Multifile {
    header: Header,
    files: FileMap,
}

impl View for Multifile {
    type V = MultifileView;

    closed spec fn view(&self) -> MultifileView {
        MultifileView { header: self.header, files: self.files@ }
    }
}

/// The data of a Subfile entry, if it lies within `input`.
pub fn subfile_data<'a>(input: &'a [u8], h: &SubfileHeader) -> (r: Result<&'a [u8], Error>)
    ensures
        in_range(h@, input@) ==> (r matches Ok(b) && b@ == input@.subrange(
            h.offset as int,
            h.offset + h.length,
        )),
        !in_range(h@, input@) ==> r == Err::<&'a [u8], Error>(Error::EndOfFile),
{
    let len = input.len() as u64;
    if h.offset <= len && h.length as u64 <= len - h.offset {
        let start = h.offset as usize;
        Ok(&input[start..start + h.length as usize])
    } else {
        Err(Error::EndOfFile)
    }
}

/// Whether a Subfile with these attributes is written out: signatures and processed
/// (compressed or encrypted) data are left out.
pub open spec fn is_extractable(attributes: u16) -> bool {
    attributes & (SIGNATURE | COMPRESSED | ENCRYPTED) == 0
}

impl Multifile {
    pub closed spec fn wf(&self) -> bool {
        self.files.wf()
    }

    /// Returns the number of Subfiles currently stored in the Multifile.
    pub fn count(&mut self) -> (n: usize)
        ensures
            n == old(self)@.files.len(),
            *final(self) == *old(self),
    {
        self.files.len()
    }

    /// The Multifile header.
    pub fn header(&self) -> (h: Header)
        ensures
            h == self@.header,
    {
        self.header
    }

    /// The path and Subfile at `index`, in path order.
    pub fn entry(&self, index: usize) -> (e: &FileEntry)
        requires
            self.wf(),
            index < self@.files.len(),
        ensures
            entry_view(*e) == self@.files[index as int],
            e.name@ == latin1_chars(e.key@),
    {
        self.files.entry(index)
    }

    /// Whether the Subfile at `index` is written out by `extract_all`.
    pub fn is_extractable(&self, index: usize) -> (r: bool)
        requires
            self.wf(),
            index < self@.files.len(),
        ensures
            r == is_extractable(self@.files[index as int].1.attributes),
    {
        !self.files.entry(index).file.attributes.intersects(SIGNATURE | COMPRESSED | ENCRYPTED)
    }

    /// Loads the entire Multifile metadata at the current position.
    pub fn load_metadata(data: &mut Reader) -> (r: Result<Metadata, Error>)
        requires
            old(data).wf(),
            old(data).endian == Endian::Little,
        ensures
            match spec_metadata(old(data).data@, old(data).pos as int) {
                Ok((h, hs)) => r matches Ok(m) && m.header == h && views(m.files@) == hs
                    && all_wf(m.files@),
                Err(e) => r matches Err(x) && x == e,
            },
    {
        let header = match multifile::read_header(data) {
            Ok(h) => h,
            Err(e) => return Err(convert(e)),
        };
        let (files, err) = multifile::walk_index(data, header, false);
        match err {
            Some(e) => Err(convert(e)),
            None => Ok(Metadata { header, files }),
        }
    }

    /// Loads the data from a given input and parses it into a new `Multifile` instance,
    /// starting at `offset`.
    pub fn load(input: &[u8], offset: u64) -> (r: Result<Multifile, Error>)
        ensures
            match spec_load(input@, offset) {
                Ok(v) => r matches Ok(m) && m@ == v && m.wf(),
                Err(e) => r matches Err(x) && x == e,
            },
    {
        let ghost d = input@;
        let mut data = Reader::new(input, Endian::Little);
        match data.set_position(offset) {
            Ok(()) => {},
            Err(_) => return Err(Error::EndOfFile),
        }
        let metadata = match Self::load_metadata(&mut data) {
            Ok(m) => m,
            Err(e) => return Err(e),
        };
        let header = metadata.header;
        let hs = metadata.files;
        let ghost all = views(hs@);
        let mut files = FileMap::new();
        let mut i: usize = 0;
        while i < hs.len()
            invariant
                d == input@,
                offset <= d.len(),
                spec_metadata(d, offset as int) == Ok::<(Header, Seq<SubfileView>), Error>(
                    (header, all),
                ),
                i <= hs@.len(),
                all == views(hs@),
                all_wf(hs@),
                files.wf(),
                spec_files(d, all.subrange(0, i as int)) == Ok::<
                    Seq<(Seq<u8>, StoredView)>,
                    Error,
                >(files@),
            decreases hs@.len() - i,
        {
            let h = &hs[i];
            assert(all.subrange(0, i + 1).drop_last() =~= all.subrange(0, i as int));
            assert(all.subrange(0, i + 1).last() == h@);
            assert(all[i as int] == h@);
            let bytes = match subfile_data(input, h) {
                Ok(b) => b,
                Err(e) => {
                    proof {
                        lemma_files_err(d, all, i as int);
                    }
                    return Err(e);
                },
            };
            let original_length = if h.original_length == 0 {
                h.length
            } else {
                h.original_length
            };
            let file = Subfile {
                attributes: h.attributes_flags(),
                original_length,
                timestamp: h.timestamp,
                data: vstd::slice::slice_to_vec(bytes),
            };
            assert(h.wf());
            assert(file@ == stored(h@, d));
            let key = vstd::slice::slice_to_vec(h.name.as_slice());
            files.insert(key, h.path.clone(), file);
            i = i + 1;
        }
        assert(all.subrange(0, i as int) =~= all);
        Ok(Multifile { header, files })
    }
}

/// Once an entry's data is out of range, building the list fails, whatever follows.
proof fn lemma_files_err(d: Seq<u8>, hs: Seq<SubfileView>, i: int)
    requires
        0 <= i < hs.len(),
        !in_range(hs[i], d),
    ensures
        forall|j: int| i < j <= hs.len() ==> spec_files(d, hs.subrange(0, j)) == Err::<
            Seq<(Seq<u8>, StoredView)>,
            Error,
        >(Error::EndOfFile),
    decreases hs.len() - i,
{
    assert forall|j: int| i < j <= hs.len() implies spec_files(d, hs.subrange(0, j)) == Err::<
        Seq<(Seq<u8>, StoredView)>,
        Error,
    >(Error::EndOfFile) by {
        lemma_files_err_at(d, hs, i, j);
    }
}

/// Building the list fails only for out-of-range data.
proof fn lemma_files_err_kind(d: Seq<u8>, hs: Seq<SubfileView>)
    ensures
        spec_files(d, hs) is Err ==> spec_files(d, hs) == Err::<
            Seq<(Seq<u8>, StoredView)>,
            Error,
        >(Error::EndOfFile),
    decreases hs.len(),
{
    if hs.len() > 0 {
        lemma_files_err_kind(d, hs.drop_last());
    }
}

proof fn lemma_files_err_at(d: Seq<u8>, hs: Seq<SubfileView>, i: int, j: int)
    requires
        0 <= i < j <= hs.len(),
        !in_range(hs[i], d),
    ensures
        spec_files(d, hs.subrange(0, j)) == Err::<Seq<(Seq<u8>, StoredView)>, Error>(
            Error::EndOfFile,
        ),
    decreases j,
{
    let s = hs.subrange(0, j);
    assert(s.drop_last() =~= hs.subrange(0, j - 1));
    if j - 1 > i {
        lemma_files_err_at(d, hs, i, j - 1);
    } else {
        assert(s.last() == hs[i]);
        lemma_files_err_kind(d, s.drop_last());
    }
}

} // verus!
