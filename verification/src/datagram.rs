//! Datagrams: length-prefixed records of a Binary Asset (BAM) stream, read with the file's
//! byte order and float width.

use vstd::prelude::*;

use crate::bytes::{take_u16, take_u32, take_u64, take_u8, DataError, Endian, Reader};
use crate::text::{decode_utf8, utf8_decode};

verus! {

/// The bits of a floating-point value as stored in the stream: single precision, or double
/// precision where the file was written with doubles. Arithmetic on them is left to callers.
#[derive(Clone, Copy, Debug, PartialEq, Eq, Structural)]
pub enum FloatBits {
    Single(u32),
    Double(u64),
}

impl View for FloatBits {
    type V = FloatBits;

    open spec fn view(&self) -> FloatBits {
        *self
    }
}

impl DeepView for FloatBits {
    type V = FloatBits;

    open spec fn deep_view(&self) -> FloatBits {
        *self
    }
}

/// The abstract state of a datagram: its bytes, the read position, the byte order and
/// whether floats are stored as doubles.
pub struct DgView {
    pub data: Seq<u8>,
    pub pos: int,
    pub endian: Endian,
    pub use_double: bool,
}

impl DgView {
    /// The same datagram with the position moved forward by `n`.
    pub open spec fn skip(self, n: int) -> DgView {
        DgView { pos: self.pos + n, ..self }
    }

    /// Bytes left after the position.
    pub open spec fn remaining(self) -> int {
        self.data.len() - self.pos
    }
}

/// Reads a byte.
pub open spec fn dg_u8(d: DgView) -> Result<(u8, DgView), DataError> {
    match take_u8(d.data, d.pos) {
        Some(v) => Ok((v, d.skip(1))),
        None => Err(DataError::EndOfFile),
    }
}

/// Reads a 16-bit value.
pub open spec fn dg_u16(d: DgView) -> Result<(u16, DgView), DataError> {
    match take_u16(d.endian, d.data, d.pos) {
        Some(v) => Ok((v, d.skip(2))),
        None => Err(DataError::EndOfFile),
    }
}

/// Reads a 32-bit value.
pub open spec fn dg_u32(d: DgView) -> Result<(u32, DgView), DataError> {
    match take_u32(d.endian, d.data, d.pos) {
        Some(v) => Ok((v, d.skip(4))),
        None => Err(DataError::EndOfFile),
    }
}

/// Reads a signed 16-bit value.
pub open spec fn dg_i16(d: DgView) -> Result<(i16, DgView), DataError> {
    match dg_u16(d) {
        Ok((v, d2)) => Ok((v as i16, d2)),
        Err(e) => Err(e),
    }
}

/// Reads a signed 32-bit value.
pub open spec fn dg_i32(d: DgView) -> Result<(i32, DgView), DataError> {
    match dg_u32(d) {
        Ok((v, d2)) => Ok((v as i32, d2)),
        Err(e) => Err(e),
    }
}

/// Reads a boolean: any nonzero byte is true.
pub open spec fn dg_bool(d: DgView) -> Result<(bool, DgView), DataError> {
    match dg_u8(d) {
        Ok((v, d2)) => Ok((v != 0, d2)),
        Err(e) => Err(e),
    }
}

/// Reads a float: eight bytes where the file stores doubles, else four.
pub open spec fn dg_float(d: DgView) -> Result<(FloatBits, DgView), DataError> {
    if d.use_double {
        match take_u64(d.endian, d.data, d.pos) {
            Some(v) => Ok((FloatBits::Double(v), d.skip(8))),
            None => Err(DataError::EndOfFile),
        }
    } else {
        match take_u32(d.endian, d.data, d.pos) {
            Some(v) => Ok((FloatBits::Single(v), d.skip(4))),
            None => Err(DataError::EndOfFile),
        }
    }
}

/// Reads a string: a 16-bit length, then that many bytes of UTF-8.
pub open spec fn dg_string(d: DgView) -> Result<(Seq<char>, DgView), DataError> {
    match dg_u16(d) {
        Err(e) => Err(e),
        Ok((n, d1)) => if d1.pos + n > d1.data.len() {
            Err(DataError::EndOfFile)
        } else {
            match utf8_decode(d1.data.subrange(d1.pos, d1.pos + n)) {
                Some(cs) => Ok((cs, d1.skip(n as int))),
                None => Err(DataError::InvalidStr),
            }
        },
    }
}

/// `n` floats in a row.
pub open spec fn dg_floats(d: DgView, n: nat) -> Result<(Seq<FloatBits>, DgView), DataError>
    decreases n,
{
    if n == 0 {
        Ok((Seq::empty(), d))
    } else {
        match dg_floats(d, (n - 1) as nat) {
            Err(e) => Err(e),
            Ok((fs, d1)) => match dg_float(d1) {
                Err(e) => Err(e),
                Ok((f, d2)) => Ok((fs.push(f), d2)),
            },
        }
    }
}

/// Once reading `k` floats fails, reading more fails with the same error.
pub proof fn lemma_floats_err(d: DgView, k: nat, n: nat)
    requires
        k <= n,
        dg_floats(d, k) is Err,
    ensures
        dg_floats(d, n) == dg_floats(d, k),
    decreases n - k,
{
    if k < n {
        lemma_floats_err(d, k, (n - 1) as nat);
    }
}

/// A string read takes its 16-bit length and exactly that many bytes, and leaves the bytes,
/// byte order and float width of the datagram as they were.
pub proof fn lemma_string_width(d: DgView)
    requires
        dg_string(d) is Ok,
    ensures
        dg_string(d) matches Ok((cs, d2)) && dg_u16(d) matches Ok((n, _)) && d2 == d.skip(2 + n),
{
}

/// Reading `n` floats takes four bytes each, or eight where the file stores doubles.
pub proof fn lemma_floats_width(d: DgView, n: nat)
    requires
        dg_floats(d, n) is Ok,
    ensures
        dg_floats(d, n) matches Ok((fs, d2)) && fs.len() == n && d2 == d.skip(
            n * (if d.use_double { 8int } else { 4int }),
        ),
    decreases n,
{
    if n > 0 {
        lemma_floats_width(d, (n - 1) as nat);
        let w: int = if d.use_double { 8 } else { 4 };
        assert((n - 1) * w + w == n * w) by (nonlinear_arith);
    }
}

/// The datagram that a stream holds at `pos`: a 32-bit length, then that many bytes.
pub open spec fn dg_frame(
    data: Seq<u8>,
    pos: int,
    endian: Endian,
    use_double: bool,
) -> Result<(DgView, int), DataError> {
    match take_u32(Endian::Little, data, pos) {
        None => Err(DataError::EndOfFile),
        Some(n) => if pos + 4 + n > data.len() {
            Err(DataError::EndOfFile)
        } else {
            Ok(
                (
                    DgView {
                        data: data.subrange(pos + 4, pos + 4 + n),
                        pos: 0,
                        endian,
                        use_double,
                    },
                    pos + 4 + n,
                ),
            )
        },
    }
}

/// A datagram being read.
pub struct Datagram<'a> {
    pub cursor: Reader<'a>,
    pub use_double: bool,
}

impl<'a> View for Datagram<'a> {
    type V = DgView;

    open spec fn view(&self) -> DgView {
        DgView {
            data: self.cursor.data@,
            pos: self.cursor.pos as int,
            endian: self.cursor.endian,
            use_double: self.use_double,
        }
    }
}

impl<'a> Datagram<'a> {
    /// The position lies within the data, and the data's length fits the 32-bit length field.
    pub open spec fn wf(&self) -> bool {
        &&& self.cursor.wf()
        &&& self.cursor.data@.len() <= u32::MAX
    }

    /// Reads the length-prefixed datagram at the position of `data`; its contents are read with
    /// byte order `endian`.
    pub fn new(data: &mut Reader<'a>, endian: Endian, use_double: bool) -> (r: Result<
        Datagram<'a>,
        DataError,
    >)
        requires
            old(data).wf(),
            old(data).endian == Endian::Little,
        ensures
            final(data).wf(),
            final(data).data@ == old(data).data@,
            final(data).endian == Endian::Little,
            match dg_frame(old(data).data@, old(data).pos as int, endian, use_double) {
                Ok((v, p)) => r matches Ok(dg) && dg@ == v && dg.wf() && final(data).pos == p,
                Err(e) => r == Err::<Datagram<'a>, DataError>(e),
            },
    {
        let length = match data.read_u32() {
            Ok(n) => n,
            Err(e) => return Err(e),
        };
        let bytes = match data.read_slice(length as usize) {
            Ok(s) => s,
            Err(e) => return Err(e),
        };
        Ok(Datagram { cursor: Reader::new(bytes, endian), use_double })
    }

    pub fn len(&self) -> (n: usize)
        ensures
            n == self@.data.len(),
    {
        self.cursor.len()
    }

    pub fn position(&self) -> (p: usize)
        ensures
            p == self@.pos,
    {
        self.cursor.position()
    }

    pub fn endian(&self) -> (e: Endian)
        ensures
            e == self@.endian,
    {
        self.cursor.endian
    }

    pub fn read_u8(&mut self) -> (r: Result<u8, DataError>)
        requires
            old(self).wf(),
        ensures
            final(self).wf(),
            match dg_u8(old(self)@) {
                Ok((v, d)) => r == Ok::<u8, DataError>(v) && final(self)@ == d,
                Err(e) => r == Err::<u8, DataError>(e),
            },
    {
        self.cursor.read_u8()
    }

    pub fn read_u16(&mut self) -> (r: Result<u16, DataError>)
        requires
            old(self).wf(),
        ensures
            final(self).wf(),
            match dg_u16(old(self)@) {
                Ok((v, d)) => r == Ok::<u16, DataError>(v) && final(self)@ == d,
                Err(e) => r == Err::<u16, DataError>(e),
            },
    {
        self.cursor.read_u16()
    }

    pub fn read_u32(&mut self) -> (r: Result<u32, DataError>)
        requires
            old(self).wf(),
        ensures
            final(self).wf(),
            match dg_u32(old(self)@) {
                Ok((v, d)) => r == Ok::<u32, DataError>(v) && final(self)@ == d,
                Err(e) => r == Err::<u32, DataError>(e),
            },
    {
        self.cursor.read_u32()
    }

    pub fn read_i16(&mut self) -> (r: Result<i16, DataError>)
        requires
            old(self).wf(),
        ensures
            final(self).wf(),
            match dg_i16(old(self)@) {
                Ok((v, d)) => r == Ok::<i16, DataError>(v) && final(self)@ == d,
                Err(e) => r == Err::<i16, DataError>(e),
            },
    {
        self.cursor.read_i16()
    }

    pub fn read_i32(&mut self) -> (r: Result<i32, DataError>)
        requires
            old(self).wf(),
        ensures
            final(self).wf(),
            match dg_i32(old(self)@) {
                Ok((v, d)) => r == Ok::<i32, DataError>(v) && final(self)@ == d,
                Err(e) => r == Err::<i32, DataError>(e),
            },
    {
        self.cursor.read_i32()
    }

    pub fn read_bool(&mut self) -> (r: Result<bool, DataError>)
        requires
            old(self).wf(),
        ensures
            final(self).wf(),
            match dg_bool(old(self)@) {
                Ok((v, d)) => r == Ok::<bool, DataError>(v) && final(self)@ == d,
                Err(e) => r == Err::<bool, DataError>(e),
            },
    {
        match self.cursor.read_u8() {
            Ok(v) => Ok(v != 0),
            Err(e) => Err(e),
        }
    }

    pub fn read_float(&mut self) -> (r: Result<FloatBits, DataError>)
        requires
            old(self).wf(),
        ensures
            final(self).wf(),
            match dg_float(old(self)@) {
                Ok((v, d)) => r == Ok::<FloatBits, DataError>(v) && final(self)@ == d,
                Err(e) => r == Err::<FloatBits, DataError>(e),
            },
    {
        if self.use_double {
            match self.cursor.read_u64() {
                Ok(v) => Ok(FloatBits::Double(v)),
                Err(e) => Err(e),
            }
        } else {
            match self.cursor.read_u32() {
                Ok(v) => Ok(FloatBits::Single(v)),
                Err(e) => Err(e),
            }
        }
    }

    /// Reads `n` floats in a row.
    pub fn read_floats(&mut self, n: usize) -> (r: Result<Vec<FloatBits>, DataError>)
        requires
            old(self).wf(),
        ensures
            final(self).wf(),
            match dg_floats(old(self)@, n as nat) {
                Ok((v, d)) => r matches Ok(fs) && fs@ == v && fs@.len() == n && final(self)@ == d,
                Err(e) => r == Err::<Vec<FloatBits>, DataError>(e),
            },
    {
        let ghost d0 = self@;
        let mut fs: Vec<FloatBits> = Vec::new();
        let mut i: usize = 0;
        while i < n
            invariant
                self.wf(),
                d0 == old(self)@,
                i <= n,
                fs@.len() == i,
                dg_floats(d0, i as nat) == Ok::<(Seq<FloatBits>, DgView), DataError>((fs@, self@)),
            decreases n - i,
        {
            let ghost before = self@;
            match self.read_float() {
                Ok(f) => {
                    fs.push(f);
                },
                Err(e) => {
                    proof {
                        assert(dg_floats(d0, (i + 1) as nat) == Err::<(Seq<FloatBits>, DgView), DataError>(e));
                        lemma_floats_err(d0, (i + 1) as nat, n as nat);
                    }
                    return Err(e);
                },
            }
            i = i + 1;
        }
        Ok(fs)
    }

    /// Reads a string: a 16-bit length, then that many bytes of UTF-8.
    pub fn read_string(&mut self) -> (r: Result<String, DataError>)
        requires
            old(self).wf(),
        ensures
            final(self).wf(),
            match dg_string(old(self)@) {
                Ok((v, d)) => r matches Ok(s) && s@ == v && final(self)@ == d,
                Err(e) => r == Err::<String, DataError>(e),
            },
    {
        let length = match self.cursor.read_u16() {
            Ok(n) => n,
            Err(e) => return Err(e),
        };
        let slice = match self.cursor.read_slice(length as usize) {
            Ok(s) => s,
            Err(e) => return Err(e),
        };
        match decode_utf8(slice) {
            Some(s) => Ok(s),
            None => Err(DataError::InvalidStr),
        }
    }

    /// Reads `n` raw bytes.
    pub fn read_bytes(&mut self, n: usize) -> (r: Result<Vec<u8>, DataError>)
        requires
            old(self).wf(),
        ensures
            final(self).wf(),
            old(self)@.pos + n <= old(self)@.data.len() ==> (r matches Ok(v) && v@
                == old(self)@.data.subrange(old(self)@.pos, old(self)@.pos + n) && final(self)@
                == old(self)@.skip(n as int)),
            old(self)@.pos + n > old(self)@.data.len() ==> r == Err::<Vec<u8>, DataError>(
                DataError::EndOfFile,
            ),
    {
        let slice = match self.cursor.read_slice(n) {
            Ok(s) => s,
            Err(e) => return Err(e),
        };
        let mut v: Vec<u8> = Vec::new();
        let mut i: usize = 0;
        while i < slice.len()
            invariant
                i <= slice@.len(),
                v@ == slice@.subrange(0, i as int),
            decreases slice@.len() - i,
        {
            v.push(slice[i]);
            i = i + 1;
        }
        assert(slice@.subrange(0, slice@.len() as int) =~= slice@);
        Ok(v)
    }
}

} // verus!
