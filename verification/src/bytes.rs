//! Positioned, endian-aware reading of integers and byte runs from a byte slice.

use vstd::prelude::*;

verus! {

/// Byte order used when decoding multi-byte integers.
#[derive(Clone, Copy, Debug, PartialEq, Eq, Structural)]
pub enum Endian {
    Big,
    Little,
}

impl Endian {
    /// The platform default byte order; the supported targets are little-endian.
    pub fn default_order() -> (e: Endian)
        ensures
            e == Endian::Little,
    {
        Endian::Little
    }
}

/// Errors raised while reading from a byte stream.
#[derive(Clone, Copy, Debug, PartialEq, Eq, Structural)]
pub enum DataError {
    /// A read or seek went past the end of the data.
    EndOfFile,
    /// Bytes that should hold UTF-8 text did not.
    InvalidStr,
}

/// Value of two bytes, in stream order, under the given byte order.
pub open spec fn u16_of(e: Endian, b0: u8, b1: u8) -> u16 {
    match e {
        Endian::Little => (b0 as int + 256 * b1) as u16,
        Endian::Big => (256 * b0 + b1 as int) as u16,
    }
}

/// Value of four bytes, in stream order, under the given byte order.
pub open spec fn u32_of(e: Endian, b0: u8, b1: u8, b2: u8, b3: u8) -> u32 {
    match e {
        Endian::Little => (b0 as int + 0x100 * b1 + 0x1_0000 * b2 + 0x100_0000 * b3) as u32,
        Endian::Big => (0x100_0000 * b0 + 0x1_0000 * b1 + 0x100 * b2 + b3 as int) as u32,
    }
}

/// Value of eight bytes, in stream order, under the given byte order.
pub open spec fn u64_of(e: Endian, b: Seq<u8>) -> u64
    recommends
        b.len() == 8,
{
    match e {
        Endian::Little => (u32_of(e, b[0], b[1], b[2], b[3]) as int + 0x1_0000_0000 * u32_of(
            e,
            b[4],
            b[5],
            b[6],
            b[7],
        )) as u64,
        Endian::Big => (0x1_0000_0000 * u32_of(e, b[0], b[1], b[2], b[3]) + u32_of(
            e,
            b[4],
            b[5],
            b[6],
            b[7],
        ) as int) as u64,
    }
}

/// The byte at `p`, if there is one.
pub open spec fn take_u8(d: Seq<u8>, p: int) -> Option<u8> {
    if 0 <= p && p + 1 <= d.len() {
        Some(d[p])
    } else {
        None
    }
}

/// The 16-bit value stored at `p`, if two bytes are left there.
pub open spec fn take_u16(e: Endian, d: Seq<u8>, p: int) -> Option<u16> {
    if 0 <= p && p + 2 <= d.len() {
        Some(u16_of(e, d[p], d[p + 1]))
    } else {
        None
    }
}

/// The 32-bit value stored at `p`, if four bytes are left there.
pub open spec fn take_u32(e: Endian, d: Seq<u8>, p: int) -> Option<u32> {
    if 0 <= p && p + 4 <= d.len() {
        Some(u32_of(e, d[p], d[p + 1], d[p + 2], d[p + 3]))
    } else {
        None
    }
}

/// The 64-bit value stored at `p`, if eight bytes are left there.
pub open spec fn take_u64(e: Endian, d: Seq<u8>, p: int) -> Option<u64> {
    if 0 <= p && p + 8 <= d.len() {
        Some(u64_of(e, d.subrange(p, p + 8)))
    } else {
        None
    }
}

/// A read position over borrowed bytes.
pub struct Reader<'a> {
    pub data: &'a [u8],
    pub pos: usize,
    pub endian: Endian,
}

impl<'a> Reader<'a> {
    /// The position lies within the data (one past the end is allowed).
    pub open spec fn wf(&self) -> bool {
        self.pos <= self.data@.len()
    }

    /// Same bytes and byte order, position moved to `p`.
    pub open spec fn moved(&self, other: &Reader<'a>, p: int) -> bool {
        &&& other.data@ == self.data@
        &&& other.endian == self.endian
        &&& other.pos == p
    }

    pub fn new(data: &'a [u8], endian: Endian) -> (r: Reader<'a>)
        ensures
            r.wf(),
            r.data@ == data@,
            r.pos == 0,
            r.endian == endian,
    {
        Reader { data, pos: 0, endian }
    }

    pub fn len(&self) -> (n: usize)
        ensures
            n == self.data@.len(),
    {
        self.data.len()
    }

    pub fn position(&self) -> (p: usize)
        ensures
            p == self.pos,
    {
        self.pos
    }

    /// Moves to `p`; a position past the end is refused and leaves the reader unchanged.
    pub fn set_position(&mut self, p: u64) -> (r: Result<(), DataError>)
        requires
            old(self).wf(),
        ensures
            final(self).wf(),
            p <= old(self).data@.len() ==> r is Ok && old(self).moved(&*final(self), p as int),
            p > old(self).data@.len() ==> r == Err::<(), DataError>(DataError::EndOfFile)
                && *final(self) == *old(self),
    {
        if p <= self.data.len() as u64 {
            self.pos = p as usize;
            Ok(())
        } else {
            Err(DataError::EndOfFile)
        }
    }

    pub fn read_u8(&mut self) -> (r: Result<u8, DataError>)
        requires
            old(self).wf(),
        ensures
            final(self).wf(),
            match take_u8(old(self).data@, old(self).pos as int) {
                Some(v) => r == Ok::<u8, DataError>(v) && old(self).moved(
                    &*final(self),
                    old(self).pos + 1,
                ),
                None => r == Err::<u8, DataError>(DataError::EndOfFile) && *final(self) == *old(
                    self,
                ),
            },
    {
        if self.pos < self.data.len() {
            let v = self.data[self.pos];
            self.pos = self.pos + 1;
            Ok(v)
        } else {
            Err(DataError::EndOfFile)
        }
    }

    pub fn read_u16(&mut self) -> (r: Result<u16, DataError>)
        requires
            old(self).wf(),
        ensures
            final(self).wf(),
            match take_u16(old(self).endian, old(self).data@, old(self).pos as int) {
                Some(v) => r == Ok::<u16, DataError>(v) && old(self).moved(
                    &*final(self),
                    old(self).pos + 2,
                ),
                None => r == Err::<u16, DataError>(DataError::EndOfFile) && *final(self) == *old(
                    self,
                ),
            },
    {
        if self.data.len() - self.pos >= 2 {
            let b0 = self.data[self.pos];
            let b1 = self.data[self.pos + 1];
            let v: u16 = match self.endian {
                Endian::Little => b0 as u16 + (b1 as u16) * 256,
                Endian::Big => (b0 as u16) * 256 + b1 as u16,
            };
            self.pos = self.pos + 2;
            Ok(v)
        } else {
            Err(DataError::EndOfFile)
        }
    }

    pub fn read_u32(&mut self) -> (r: Result<u32, DataError>)
        requires
            old(self).wf(),
        ensures
            final(self).wf(),
            match take_u32(old(self).endian, old(self).data@, old(self).pos as int) {
                Some(v) => r == Ok::<u32, DataError>(v) && old(self).moved(
                    &*final(self),
                    old(self).pos + 4,
                ),
                None => r == Err::<u32, DataError>(DataError::EndOfFile) && *final(self) == *old(
                    self,
                ),
            },
    {
        if self.data.len() - self.pos >= 4 {
            let p = self.pos;
            let v = compose_u32(
                self.endian,
                self.data[p],
                self.data[p + 1],
                self.data[p + 2],
                self.data[p + 3],
            );
            self.pos = p + 4;
            Ok(v)
        } else {
            Err(DataError::EndOfFile)
        }
    }

    pub fn read_u64(&mut self) -> (r: Result<u64, DataError>)
        requires
            old(self).wf(),
        ensures
            final(self).wf(),
            match take_u64(old(self).endian, old(self).data@, old(self).pos as int) {
                Some(v) => r == Ok::<u64, DataError>(v) && old(self).moved(
                    &*final(self),
                    old(self).pos + 8,
                ),
                None => r == Err::<u64, DataError>(DataError::EndOfFile) && *final(self) == *old(
                    self,
                ),
            },
    {
        if self.data.len() - self.pos >= 8 {
            let p = self.pos;
            let e = self.endian;
            let lo = compose_u32(e, self.data[p], self.data[p + 1], self.data[p + 2], self.data[p + 3]);
            let hi = compose_u32(e, self.data[p + 4], self.data[p + 5], self.data[p + 6], self.data[p + 7]);
            let v: u64 = match e {
                Endian::Little => lo as u64 + (hi as u64) * 0x1_0000_0000,
                Endian::Big => (lo as u64) * 0x1_0000_0000 + hi as u64,
            };
            proof {
                let s = self.data@.subrange(p as int, p + 8);
                assert(s[0] == self.data@[p as int] && s[1] == self.data@[p + 1] && s[2]
                    == self.data@[p + 2] && s[3] == self.data@[p + 3]);
                assert(s[4] == self.data@[p + 4] && s[5] == self.data@[p + 5] && s[6]
                    == self.data@[p + 6] && s[7] == self.data@[p + 7]);
            }
            self.pos = p + 8;
            Ok(v)
        } else {
            Err(DataError::EndOfFile)
        }
    }

    pub fn read_i16(&mut self) -> (r: Result<i16, DataError>)
        requires
            old(self).wf(),
        ensures
            final(self).wf(),
            match take_u16(old(self).endian, old(self).data@, old(self).pos as int) {
                Some(v) => r == Ok::<i16, DataError>(v as i16) && old(self).moved(
                    &*final(self),
                    old(self).pos + 2,
                ),
                None => r == Err::<i16, DataError>(DataError::EndOfFile) && *final(self) == *old(
                    self,
                ),
            },
    {
        match self.read_u16() {
            Ok(v) => Ok(v as i16),
            Err(e) => Err(e),
        }
    }

    pub fn read_i32(&mut self) -> (r: Result<i32, DataError>)
        requires
            old(self).wf(),
        ensures
            final(self).wf(),
            match take_u32(old(self).endian, old(self).data@, old(self).pos as int) {
                Some(v) => r == Ok::<i32, DataError>(v as i32) && old(self).moved(
                    &*final(self),
                    old(self).pos + 4,
                ),
                None => r == Err::<i32, DataError>(DataError::EndOfFile) && *final(self) == *old(
                    self,
                ),
            },
    {
        match self.read_u32() {
            Ok(v) => Ok(v as i32),
            Err(e) => Err(e),
        }
    }

    /// The next `n` bytes, borrowed from the data.
    pub fn read_slice(&mut self, n: usize) -> (r: Result<&'a [u8], DataError>)
        requires
            old(self).wf(),
        ensures
            final(self).wf(),
            old(self).pos + n <= old(self).data@.len() ==> (r matches Ok(s) && s@ == old(
                self,
            ).data@.subrange(old(self).pos as int, old(self).pos + n) && old(self).moved(
                &*final(self),
                old(self).pos + n,
            )),
            old(self).pos + n > old(self).data@.len() ==> r == Err::<&'a [u8], DataError>(
                DataError::EndOfFile,
            ) && *final(self) == *old(self),
    {
        if self.data.len() - self.pos >= n {
            let p = self.pos;
            let s = &self.data[p..p + n];
            self.pos = p + n;
            Ok(s)
        } else {
            Err(DataError::EndOfFile)
        }
    }
}

/// Combines four bytes, in stream order, into a 32-bit value.
pub fn compose_u32(e: Endian, b0: u8, b1: u8, b2: u8, b3: u8) -> (v: u32)
    ensures
        v == u32_of(e, b0, b1, b2, b3),
{
    match e {
        Endian::Little => b0 as u32 + (b1 as u32) * 0x100 + (b2 as u32) * 0x1_0000 + (b3 as u32)
            * 0x100_0000,
        Endian::Big => (b0 as u32) * 0x100_0000 + (b1 as u32) * 0x1_0000 + (b2 as u32) * 0x100
            + b3 as u32,
    }
}

} // verus!
