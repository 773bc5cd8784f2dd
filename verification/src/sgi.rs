//! Decoding of SGI images (".sgi", ".rgb", ".rgba", ".bw", ".int", ".inta").
//!
//! An SGI image is a 512-byte big-endian header followed by planar image data: every row of
//! the first channel, bottom row first, then every row of the next channel. Rows are stored
//! either raw or run-length encoded, in which case tables of row offsets and lengths follow
//! the header.

use vstd::prelude::*;

use crate::bytes::{take_u32, u16_of, DataError, Endian, Reader};
use vstd::arithmetic::div_mod::lemma_fundamental_div_mod_converse;

verus! {

/// Errors when decoding an SGI image.
#[derive(Clone, Copy, Debug, PartialEq, Eq, Structural)]
pub enum SgiError {
    /// Thrown if a data error occurred while reading.
    DataError(DataError),
    /// Thrown if the header contains a magic number other than "\x01\xDA".
    InvalidMagic,
    /// Thrown if the dimension value is not 1, 2, or 3.
    InvalidDimension(u16),
    /// Thrown if bytes per pixel is not 1 or 2.
    UnsupportedBytesPerPixel(u8),
    /// Thrown if number of channels is not 1, 3, or 4.
    UnsupportedChannels(u16),
    /// Thrown if RLE compressed data is invalid or corrupt.
    InvalidRleData,
}

/// The error that reading past the end gives.
pub open spec fn eof() -> SgiError {
    SgiError::DataError(DataError::EndOfFile)
}

/// Size of the header, in bytes.
pub const HEADER_SIZE: usize = 512;

/// The fields of an SGI header.
#[derive(Clone, Copy, Debug, PartialEq, Eq, Structural)]
pub struct SgiHeader {
    pub compression: u8,
    pub bytes_per_pixel: u8,
    pub dimension: u16,
    pub width: u16,
    pub height: u16,
    pub channels: u16,
    pub min_value: u32,
    pub max_value: u32,
    pub colormap: u32,
}

/// The header at the start of `d`, its multi-byte fields in byte order `e` (SGI files are
/// big-endian).
pub open spec fn spec_header(e: Endian, d: Seq<u8>) -> Result<SgiHeader, SgiError> {
    let dimension = u16_of(e, d[4], d[5]);
    let channels = u16_of(e, d[10], d[11]);
    if d.len() < 2 {
        Err(eof())
    } else if d[0] != 1 || d[1] != 0xDA {
        Err(SgiError::InvalidMagic)
    } else if d.len() < 4 {
        Err(eof())
    } else if !(d[3] == 1 || d[3] == 2) {
        Err(SgiError::UnsupportedBytesPerPixel(d[3]))
    } else if d.len() < 6 {
        Err(eof())
    } else if !(1 <= dimension <= 3) {
        Err(SgiError::InvalidDimension(dimension))
    } else if d.len() < 12 {
        Err(eof())
    } else if !(channels == 1 || channels == 3 || channels == 4) {
        Err(SgiError::UnsupportedChannels(channels))
    } else if d.len() < 512 {
        Err(eof())
    } else {
        Ok(
            SgiHeader {
                compression: d[2],
                bytes_per_pixel: d[3],
                dimension,
                width: u16_of(e, d[6], d[7]),
                height: u16_of(e, d[8], d[9]),
                channels,
                min_value: take_u32(e, d, 12).unwrap(),
                max_value: take_u32(e, d, 16).unwrap(),
                colormap: take_u32(e, d, 104).unwrap(),
            },
        )
    }
}

fn data_error(e: DataError) -> (r: SgiError)
    ensures
        r == SgiError::DataError(e),
{
    SgiError::DataError(e)
}

impl SgiHeader {
    /// Reads the header at the reader's position, in the reader's byte order.
    #[verifier::spinoff_prover]
    #[verifier::rlimit(60)]
    pub fn read(data: &mut Reader) -> (r: Result<SgiHeader, SgiError>)
        requires
            old(data).wf(),
        ensures
            final(data).wf(),
            final(data).data@ == old(data).data@,
            final(data).endian == old(data).endian,
            match spec_header(old(data).endian, old(data).data@.skip(old(data).pos as int)) {
                Ok(h) => r == Ok::<SgiHeader, SgiError>(h) && final(data).pos == old(data).pos + 512,
                Err(e) => r == Err::<SgiHeader, SgiError>(e),
            },
    {
        let ghost d = data.data@.skip(data.pos as int);
        let magic = match data.read_slice(2) {
            Ok(m) => m,
            Err(e) => return Err(data_error(e)),
        };
        if !(magic[0] == 1 && magic[1] == 0xDA) {
            return Err(SgiError::InvalidMagic);
        }
        let compression = match data.read_u8() {
            Ok(v) => v,
            Err(e) => return Err(data_error(e)),
        };
        let bytes_per_pixel = match data.read_u8() {
            Ok(v) => v,
            Err(e) => return Err(data_error(e)),
        };
        if !(bytes_per_pixel == 1 || bytes_per_pixel == 2) {
            return Err(SgiError::UnsupportedBytesPerPixel(bytes_per_pixel));
        }
        let dimension = match data.read_u16() {
            Ok(v) => v,
            Err(e) => return Err(data_error(e)),
        };
        if !(1 <= dimension && dimension <= 3) {
            return Err(SgiError::InvalidDimension(dimension));
        }
        let width = match data.read_u16() {
            Ok(v) => v,
            Err(e) => return Err(data_error(e)),
        };
        let height = match data.read_u16() {
            Ok(v) => v,
            Err(e) => return Err(data_error(e)),
        };
        let channels = match data.read_u16() {
            Ok(v) => v,
            Err(e) => return Err(data_error(e)),
        };
        if !(channels == 1 || channels == 3 || channels == 4) {
            return Err(SgiError::UnsupportedChannels(channels));
        }
        let min_value = match data.read_u32() {
            Ok(v) => v,
            Err(e) => return Err(data_error(e)),
        };
        let max_value = match data.read_u32() {
            Ok(v) => v,
            Err(e) => return Err(data_error(e)),
        };
        let _reserved = match data.read_u32() {
            Ok(v) => v,
            Err(e) => return Err(data_error(e)),
        };
        let _image_name = match data.read_slice(80) {
            Ok(v) => v,
            Err(e) => return Err(data_error(e)),
        };
        let colormap = match data.read_u32() {
            Ok(v) => v,
            Err(e) => return Err(data_error(e)),
        };
        let _padding = match data.read_slice(404) {
            Ok(v) => v,
            Err(e) => return Err(data_error(e)),
        };
        Ok(
            SgiHeader {
                compression,
                bytes_per_pixel,
                dimension,
                width,
                height,
                channels,
                min_value,
                max_value,
                colormap,
            },
        )
    }
}

/// `src` written over `out` from position `op` on.
pub open spec fn splice(out: Seq<u8>, op: int, src: Seq<u8>) -> Seq<u8> {
    out.take(op) + src + out.skip(op + src.len())
}

/// A one- or two-byte value repeated `n` times.
pub open spec fn repeat_unit(unit: Seq<u8>, n: nat) -> Seq<u8> {
    if unit.len() == 2 {
        Seq::new(2 * n, |i: int| unit[i % 2])
    } else {
        Seq::new(n, |i: int| unit[0])
    }
}

/// Number of bytes that `n` values of `bpp` bytes take.
pub open spec fn scaled(n: int, bpp: u8) -> int {
    if bpp == 2 {
        2 * n
    } else {
        n
    }
}

/// What one packet at the start of `comp` does.
pub enum Packet {
    /// The row ends here.
    End,
    /// The row's data ends inside the packet, or its samples would pass the end of the row.
    Corrupt,
    /// The packet takes this many bytes of `comp`, leaves this output, and moves the output
    /// position here.
    Next(int, Seq<u8>, int),
}

/// Decodes the packet at the start of `comp` into `out` at position `op`, within a row that
/// ends at position `end`. A counter (one byte, or two for 16-bit samples) starts each packet:
/// zero ends the row; with its 0x80 bit clear, the next sample repeats (counter & 0x7F)
/// times; with it set, that many samples follow verbatim.
pub open spec fn rle_packet(bpp: u8, comp: Seq<u8>, out: Seq<u8>, op: int, end: int) -> Packet {
    let u = scaled(1, bpp);
    if comp.len() == 0 {
        Packet::End
    } else if comp.len() < u {
        Packet::Corrupt
    } else {
        let raw: int = if bpp == 2 {
            comp[0] * 256 + comp[1]
        } else {
            comp[0] as int
        };
        let count = raw % 128;
        let n = scaled(count, bpp);
        let rest = comp.skip(u);
        if raw == 0 {
            Packet::End
        } else if (raw / 128) % 2 == 0 {
            if rest.len() < u || op + n > end {
                Packet::Corrupt
            } else {
                Packet::Next(2 * u, splice(out, op, repeat_unit(rest.take(u), count as nat)), op + n)
            }
        } else {
            if rest.len() < n || op + n > end {
                Packet::Corrupt
            } else {
                Packet::Next(u + n, splice(out, op, rest.take(n)), op + n)
            }
        }
    }
}

/// Decodes one run-length encoded row held in `comp` into `out` from position `op` on, packet
/// by packet, until the data is used up or a zero counter ends the row. `None` when the data
/// is corrupt: it ends inside a packet, or the samples would pass `end`.
pub open spec fn rle_line(bpp: u8, comp: Seq<u8>, out: Seq<u8>, op: int, end: int) -> Option<Seq<u8>>
    decreases comp.len(),
{
    match rle_packet(bpp, comp, out, op, end) {
        Packet::End => Some(out),
        Packet::Corrupt => None,
        Packet::Next(k, o, q) => if 0 < k <= comp.len() {
            rle_line(bpp, comp.skip(k), o, q, end)
        } else {
            None
        },
    }
}

/// One run-length encoded row decoded into exactly `line` bytes: the samples its packets give,
/// then zeros. `None` when the row's data is corrupt.
pub open spec fn rle_row(bpp: u8, comp: Seq<u8>, line: nat) -> Option<Seq<u8>> {
    rle_line(bpp, comp, Seq::new(line, |i: int| 0u8), 0, line as int)
}

/// Decoding a row keeps the length of the output.
pub proof fn lemma_rle_len(bpp: u8, comp: Seq<u8>, out: Seq<u8>, op: int, end: int)
    requires
        bpp == 1 || bpp == 2,
        0 <= op <= end <= out.len(),
    ensures
        rle_line(bpp, comp, out, op, end) matches Some(o) ==> o.len() == out.len(),
    decreases comp.len(),
{
    match rle_packet(bpp, comp, out, op, end) {
        Packet::Next(k, o, q) => {
            if 0 < k <= comp.len() {
                let u = scaled(1, bpp);
                let rest = comp.skip(u);
                let raw: int = if bpp == 2 { comp[0] * 256 + comp[1] } else { comp[0] as int };
                let count = raw % 128;
                if (raw / 128) % 2 == 0 {
                    assert(repeat_unit(rest.take(u), count as nat).len() == scaled(count, bpp));
                } else {
                    assert(rest.take(scaled(count, bpp)).len() == scaled(count, bpp));
                }
                assert(o.len() == out.len());
                lemma_rle_len(bpp, comp.skip(k), o, q, end);
            }
        },
        _ => {},
    }
}

/// The flag bit and the count of a packet header.
proof fn lemma_packet_bits(c: u16)
    ensures
        (c & 0x80 == 0) == ((c as int / 128) % 2 == 0),
        (c & 0x7F) as int == c as int % 128,
{
    assert((c & 0x80 == 0) == ((c / 128) % 2 == 0)) by (bit_vector);
    assert((c & 0x7F) == c % 128) by (bit_vector);
}

/// Decodes the packet at position `cp` of `comp` (see `rle_packet`); `Ok(None)` when the row
/// ends, `Ok(Some((cp', op')))` with the next positions otherwise.
fn decode_packet(bpp: u8, comp: &[u8], cp: usize, out: &mut Vec<u8>, op: usize, end: usize) -> (r: Result<Option<(usize, usize)>, SgiError>)
    requires
        bpp == 1 || bpp == 2,
        cp <= comp@.len(),
        op <= end <= old(out)@.len(),
    ensures
        final(out)@.len() == old(out)@.len(),
        match rle_packet(bpp, comp@.skip(cp as int), old(out)@, op as int, end as int) {
            Packet::End => r == Ok::<Option<(usize, usize)>, SgiError>(None) && final(out)@ == old(out)@,
            Packet::Corrupt => r == Err::<Option<(usize, usize)>, SgiError>(SgiError::InvalidRleData),
            Packet::Next(k, o, q) => r matches Ok(Some((c2, o2))) && c2 == cp + k && o2 == q
                && final(out)@ == o && 0 < k && c2 <= comp@.len() && o2 <= end,
        },
{
    let ghost s = comp@.skip(cp as int);
    let len = comp.len();
    if cp == len {
        return Ok(None);
    }
    let raw: u16;
    let mut p = cp;
    if bpp == 1 {
        raw = comp[p] as u16;
        p = p + 1;
    } else {
        if len - p < 2 {
            return Err(SgiError::InvalidRleData);
        }
        raw = comp[p] as u16 * 256 + comp[p + 1] as u16;
        p = p + 2;
    }
    assert(comp@.skip(p as int) =~= s.skip(scaled(1, bpp)));
    if raw == 0 {
        return Ok(None);
    }
    proof {
        lemma_packet_bits(raw);
    }
    let is_run = raw & 0x80 == 0;
    let count = (raw & 0x7F) as usize;
    let n = if bpp == 2 { 2 * count } else { count };
    if is_run {
        if len - p < n_unit(bpp) || end - op < n {
            return Err(SgiError::InvalidRleData);
        }
        write_run(bpp, comp, p, count, out, op);
        assert(comp@.skip(p as int).take(scaled(1, bpp)) =~= s.skip(scaled(1, bpp)).take(scaled(1, bpp)));
        Ok(Some((p + n_unit(bpp), op + n)))
    } else {
        if len - p < n || end - op < n {
            return Err(SgiError::InvalidRleData);
        }
        write_copy(comp, p, n, out, op);
        assert(comp@.skip(p as int).take(n as int) =~= s.skip(scaled(1, bpp)).take(n as int));
        Ok(Some((p + n, op + n)))
    }
}

/// Decodes one run-length encoded row into `out` between `start` and `end` (see `rle_line`).
pub fn decode_line(bpp: u8, comp: &[u8], out: &mut Vec<u8>, start: usize, end: usize) -> (r: Result<(), SgiError>)
    requires
        bpp == 1 || bpp == 2,
        start <= end <= old(out)@.len(),
    ensures
        final(out)@.len() == old(out)@.len(),
        match rle_line(bpp, comp@, old(out)@, start as int, end as int) {
            Some(o) => r is Ok && final(out)@ == o,
            None => r == Err::<(), SgiError>(SgiError::InvalidRleData),
        },
{
    let ghost c0 = comp@;
    let ghost o0 = out@;
    let len = comp.len();
    let mut cp: usize = 0;
    let mut op = start;
    assert(comp@.skip(0) =~= comp@);
    loop
        invariant
            bpp == 1 || bpp == 2,
            cp <= len,
            len == comp@.len(),
            c0 == comp@,
            op <= end,
            end <= out@.len(),
            out@.len() == o0.len(),
            o0 == old(out)@,
            rle_line(bpp, c0, o0, start as int, end as int) == rle_line(bpp, c0.skip(cp as int), out@, op as int, end as int),
        decreases len - cp,
    {
        let ghost s = c0.skip(cp as int);
        match decode_packet(bpp, comp, cp, out, op, end) {
            Err(e) => return Err(e),
            Ok(None) => return Ok(()),
            Ok(Some((c2, o2))) => {
                assert(s.skip(c2 - cp) =~= c0.skip(c2 as int));
                cp = c2;
                op = o2;
            },
        }
    }
}

/// Writes the sample at `cp` of `comp` `count` times into `out` from `op` on.
fn write_run(bpp: u8, comp: &[u8], cp: usize, count: usize, out: &mut Vec<u8>, op: usize)
    requires
        bpp == 1 || bpp == 2,
        cp + scaled(1, bpp) <= comp@.len(),
        op + scaled(count as int, bpp) <= old(out)@.len(),
        count < 128,
    ensures
        final(out)@ == splice(
            old(out)@,
            op as int,
            repeat_unit(comp@.skip(cp as int).take(scaled(1, bpp)), count as nat),
        ),
{
    let ghost unit = comp@.skip(cp as int).take(scaled(1, bpp));
    let ghost before = out@;
    let clen = comp.len();
    let olen = out.len();
    let n = if bpp == 2 { 2 * count } else { count };
    let mut j: usize = 0;
    while j < n
        invariant
            clen == comp@.len(),
            olen == out@.len(),
            bpp == 1 || bpp == 2,
            cp + scaled(1, bpp) <= comp@.len(),
            op + n <= before.len(),
            out@.len() == before.len(),
            n == scaled(count as int, bpp),
            j <= n,
            unit == comp@.skip(cp as int).take(scaled(1, bpp)),
            out@ == splice(before, op as int, repeat_unit(unit, count as nat).take(j as int)),
        decreases n - j,
    {
        let b = if bpp == 2 { comp[cp + j % 2] } else { comp[cp] };
        out.set(op + j, b);
        j = j + 1;
        assert(out@ =~= splice(before, op as int, repeat_unit(unit, count as nat).take(j as int)));
    }
    assert(repeat_unit(unit, count as nat).take(j as int) =~= repeat_unit(unit, count as nat));
}

/// Copies `n` bytes of `comp` from `cp` on into `out` from `op` on.
fn write_copy(comp: &[u8], cp: usize, n: usize, out: &mut Vec<u8>, op: usize)
    requires
        cp + n <= comp@.len(),
        op + n <= old(out)@.len(),
    ensures
        final(out)@ == splice(old(out)@, op as int, comp@.skip(cp as int).take(n as int)),
{
    let ghost before = out@;
    let clen = comp.len();
    let olen = out.len();
    let mut j: usize = 0;
    while j < n
        invariant
            clen == comp@.len(),
            olen == out@.len(),
            cp + n <= comp@.len(),
            op + n <= before.len(),
            out@.len() == before.len(),
            j <= n,
            out@ == splice(before, op as int, comp@.skip(cp as int).take(j as int)),
        decreases n - j,
    {
        out.set(op + j, comp[cp + j]);
        j = j + 1;
        assert(out@ =~= splice(before, op as int, comp@.skip(cp as int).take(j as int)));
    }
}

/// Number of bytes of one sample.
fn n_unit(bpp: u8) -> (u: usize)
    ensures
        u == scaled(1, bpp),
{
    if bpp == 2 {
        2
    } else {
        1
    }
}

/// The `i`-th entry of the 32-bit table that starts at `p`.
pub open spec fn table_entry(d: Seq<u8>, p: int, i: int) -> u32 {
    take_u32(Endian::Big, d, p + 4 * i).unwrap()
}

/// The stored bytes of row `t` of the tables at `p` (`ts` offsets, then `ts` lengths), if the
/// row lies within the data.
pub open spec fn row_bytes(d: Seq<u8>, p: int, ts: nat, t: int) -> Option<Seq<u8>> {
    let off = table_entry(d, p, t);
    let len = table_entry(d, p, ts + t);
    if off + len > d.len() {
        None
    } else {
        Some(d.subrange(off as int, off + len))
    }
}

/// Decodes the rows `t..ts` in table order (all rows of one channel, then the next), each into
/// exactly `line` bytes appended to `acc`. A row outside the data gives an end-of-file error,
/// a corrupt row `InvalidRleData`.
pub open spec fn decode_rows(bpp: u8, d: Seq<u8>, p: int, ts: nat, line: nat, t: nat, acc: Seq<u8>) -> Result<Seq<u8>, SgiError>
    decreases ts - t,
{
    if t >= ts {
        Ok(acc)
    } else {
        match row_bytes(d, p, ts, t as int) {
            None => Err(eof()),
            Some(c) => match rle_row(bpp, c, line) {
                None => Err(SgiError::InvalidRleData),
                Some(r) => decode_rows(bpp, d, p, ts, line, t + 1, acc + r),
            },
        }
    }
}

/// Size of the planar image data, in bytes.
pub open spec fn total_size(h: SgiHeader) -> int {
    h.height * h.width * h.channels * h.bytes_per_pixel
}

/// The planar image data that the run-length encoded rows of `d` decode to, with the offset
/// and length tables read from position `p`.
pub open spec fn spec_decode_rle(h: SgiHeader, d: Seq<u8>, p: int) -> Result<Seq<u8>, SgiError> {
    let ts = (h.height * h.channels) as nat;
    if p + 8 * ts > d.len() {
        Err(eof())
    } else {
        decode_rows(h.bytes_per_pixel, d, p, ts, (h.width * h.bytes_per_pixel) as nat, 0, Seq::empty())
    }
}

/// Rows decoded after `acc` land at their own place, one row of `line` bytes each.
proof fn lemma_decode_rows(bpp: u8, d: Seq<u8>, p: int, ts: nat, line: nat, t: nat, acc: Seq<u8>)
    requires
        bpp == 1 || bpp == 2,
        t <= ts,
        acc.len() == t * line,
    ensures
        decode_rows(bpp, d, p, ts, line, t, acc) matches Ok(o) ==> {
            &&& o.len() == ts * line
            &&& o.subrange(0, (t * line) as int) == acc
            &&& forall|k: int|
                t <= k < ts ==> (#[trigger] row_bytes(d, p, ts, k) matches Some(c) && rle_row(bpp, c, line)
                    == Some(o.subrange(k * line, k * line + line)))
        },
    decreases ts - t,
{
    if t < ts {
        match row_bytes(d, p, ts, t as int) {
            None => {},
            Some(c) => {
                lemma_rle_len(bpp, c, Seq::new(line, |i: int| 0u8), 0, line as int);
                match rle_row(bpp, c, line) {
                    None => {},
                    Some(r) => {
                        let acc2 = acc + r;
                        assert(acc2.len() == (t + 1) * line) by (nonlinear_arith)
                            requires acc2.len() == acc.len() + r.len(), acc.len() == t * line, r.len() == line;
                        lemma_decode_rows(bpp, d, p, ts, line, t + 1, acc2);
                        match decode_rows(bpp, d, p, ts, line, t + 1, acc2) {
                            Ok(o) => {
                                assert((t + 1) * line == t * line + line) by (nonlinear_arith);
                                let b = (t * line) as int;
                                let b1 = ((t + 1) * line) as int;
                                assert(b1 <= ts * line) by (nonlinear_arith)
                                    requires t + 1 <= ts, b1 == (t + 1) * line;
                                assert(o.subrange(0, b1) == acc2);
                                assert forall|i: int| 0 <= i < b1 implies o[i] == acc2[i] by {
                                    assert(o.subrange(0, b1)[i] == o[i]);
                                }
                                assert(o.subrange(0, b) =~= acc2.subrange(0, b));
                                assert(acc2.subrange(0, b) =~= acc);
                                assert(o.subrange(b, b + line) =~= acc2.subrange(b, b + line));
                                assert(acc2.subrange(b, b + line) =~= r);
                            },
                            Err(_) => {},
                        }
                    },
                }
            },
        }
    }
}

/// Each row decodes into exactly its own `width * bytes_per_pixel` bytes: the decoded data is
/// the rows in table order, row `t` at `t` row lengths in, each the decoding of that row's
/// stored bytes; a row whose data is corrupt fails the whole decoding with `InvalidRleData`.
pub proof fn lemma_rle_rows(h: SgiHeader, d: Seq<u8>, p: int)
    requires
        h.bytes_per_pixel == 1 || h.bytes_per_pixel == 2,
    ensures
        ({
            let ts = (h.height * h.channels) as nat;
            let line = (h.width * h.bytes_per_pixel) as nat;
            spec_decode_rle(h, d, p) matches Ok(o) ==> {
                &&& o.len() == ts * line
                &&& forall|t: int|
                    0 <= t < ts ==> (#[trigger] row_bytes(d, p, ts, t) matches Some(c) && rle_row(
                        h.bytes_per_pixel,
                        c,
                        line,
                    ) == Some(o.subrange(t * line, t * line + line)))
            }
        }),
{
    let ts = (h.height * h.channels) as nat;
    let line = (h.width * h.bytes_per_pixel) as nat;
    if p + 8 * ts <= d.len() {
        lemma_decode_rows(h.bytes_per_pixel, d, p, ts, line, 0, Seq::empty());
    }
}

/// A header whose sizes the library can hold.
pub open spec fn header_ok(h: SgiHeader) -> bool {
    &&& h.bytes_per_pixel == 1 || h.bytes_per_pixel == 2
    &&& h.channels == 1 || h.channels == 3 || h.channels == 4
    &&& total_size(h) <= usize::MAX
}

proof fn lemma_sizes(h: int, w: int, c: int, b: int)
    requires
        0 <= h <= 0xFFFF,
        0 <= w <= 0xFFFF,
        1 <= c <= 4,
        1 <= b <= 2,
        h * w * c * b <= usize::MAX,
    ensures
        h * c <= 0xFFFF * 4,
        w * b <= 0xFFFF * 2,
        h * w <= h * w * c * b,
        h * w * c <= h * w * c * b,
{
    assert(h * c <= 0xFFFF * 4) by (nonlinear_arith)
        requires
            0 <= h <= 0xFFFF,
            1 <= c <= 4,
    ;
    assert(w * b <= 0xFFFF * 2) by (nonlinear_arith)
        requires
            0 <= w <= 0xFFFF,
            1 <= b <= 2,
    ;
    assert(h * w <= h * w * c * b && h * w * c <= h * w * c * b) by (nonlinear_arith)
        requires
            0 <= h,
            0 <= w,
            1 <= c,
            1 <= b,
    ;
}

/// Reads `n` 32-bit big-endian values from the current position.
fn read_table(data: &mut Reader, n: usize) -> (r: Result<Vec<u32>, SgiError>)
    requires
        old(data).wf(),
        old(data).endian == Endian::Big,
    ensures
        final(data).wf(),
        final(data).data@ == old(data).data@,
        final(data).endian == Endian::Big,
        old(data).pos + 4 * n <= old(data).data@.len() ==> (r matches Ok(v) && v@.len() == n
            && final(data).pos == old(data).pos + 4 * n && forall|i: int|
            0 <= i < n ==> #[trigger] v@[i] == table_entry(old(data).data@, old(data).pos as int, i)),
        old(data).pos + 4 * n > old(data).data@.len() ==> r == Err::<Vec<u32>, SgiError>(eof()),
{
    let ghost p = data.pos as int;
    let ghost d = data.data@;
    let mut v: Vec<u32> = Vec::new();
    let mut i: usize = 0;
    while i < n
        invariant
            data.wf(),
            data.data@ == d,
            data.endian == Endian::Big,
            d == old(data).data@,
            p == old(data).pos,
            i <= n,
            v@.len() == i,
            data.pos == p + 4 * i,
            forall|k: int| 0 <= k < i ==> #[trigger] v@[k] == table_entry(d, p, k),
        decreases n - i,
    {
        match data.read_u32() {
            Ok(x) => {
                v.push(x);
            },
            Err(e) => {
                return Err(data_error(e));
            },
        }
        i = i + 1;
    }
    Ok(v)
}

impl SgiImageLoader {
    /// Decodes the run-length encoded rows whose offset and length tables start at the current
    /// position (see `spec_decode_rle`).
    pub fn decode_rle(&self, data: &mut Reader, header: &SgiHeader) -> (r: Result<Vec<u8>, SgiError>)
        requires
            old(data).wf(),
            old(data).endian == Endian::Big,
            header_ok(*header),
        ensures
            match spec_decode_rle(*header, old(data).data@, old(data).pos as int) {
                Ok(o) => r matches Ok(v) && v@ == o,
                Err(e) => r == Err::<Vec<u8>, SgiError>(e),
            },
            r matches Ok(v) ==> v@.len() == total_size(*header),
    {
        let ghost d = data.data@;
        let ghost p0 = data.pos as int;
        let width = header.width as usize;
        let height = header.height as usize;
        let channels = header.channels as usize;
        let bpp = header.bytes_per_pixel as usize;
        proof {
            lemma_sizes(height as int, width as int, channels as int, bpp as int);
        }
        let table_size = height * channels;
        let offsets = match read_table(data, table_size) {
            Ok(v) => v,
            Err(e) => return Err(e),
        };
        let lengths = match read_table(data, table_size) {
            Ok(v) => v,
            Err(e) => return Err(e),
        };
        proof {
            assert(total_size(*header) == height * width * channels * bpp);
            assert(table_size * (width * bpp) == height * width * channels * bpp) by (nonlinear_arith)
                requires table_size == height * channels;
        }
        let line = width * bpp;
        let mut out: Vec<u8> = Vec::new();
        let mut t: usize = 0;
        while t < table_size
            invariant
                data.wf(),
                data.data@ == d,
                data.endian == Endian::Big,
                d == old(data).data@,
                p0 == old(data).pos,
                header_ok(*header),
                bpp == header.bytes_per_pixel,
                line == header.width * header.bytes_per_pixel,
                table_size == header.height * header.channels,
                offsets@.len() == table_size,
                lengths@.len() == table_size,
                forall|k: int| 0 <= k < table_size ==> #[trigger] offsets@[k] == table_entry(d, p0, k),
                forall|k: int| 0 <= k < table_size ==> #[trigger] lengths@[k] == table_entry(d, p0 + 4 * table_size, k),
                t <= table_size,
                out@.len() == t * line,
                p0 + 8 * table_size <= d.len(),
                spec_decode_rle(*header, d, p0) == decode_rows(header.bytes_per_pixel, d, p0, table_size as nat, line as nat, t as nat, out@),
            decreases table_size - t,
        {
            proof {
                assert(table_entry(d, p0, table_size + t) == table_entry(d, p0 + 4 * table_size, t as int));
            }
            let off = offsets[t];
            let len = lengths[t];
            match data.set_position(off as u64) {
                Ok(()) => {},
                Err(e) => return Err(data_error(e)),
            }
            let comp = match data.read_slice(len as usize) {
                Ok(c) => c,
                Err(e) => return Err(data_error(e)),
            };
            let mut row: Vec<u8> = vec![0u8; line];
            assert(row@ =~= Seq::new(line as nat, |i: int| 0u8));
            match decode_line(header.bytes_per_pixel, comp, &mut row, 0, line) {
                Ok(()) => {},
                Err(e) => return Err(e),
            }
            let ghost before = out@;
            out.append(&mut row);
            t = t + 1;
            proof {
                assert(out@.len() == t * line) by (nonlinear_arith)
                    requires out@.len() == before.len() + line, before.len() == (t - 1) * line;
            }
        }
        Ok(out)
    }
}

/// Loader of SGI images.
pub struct SgiImageLoader;

/// Channels of the output pixels: RGB images get an alpha channel.
pub open spec fn output_channels(h: SgiHeader) -> int {
    if h.channels == 3 {
        4
    } else {
        h.channels as int
    }
}

/// Size of the interleaved output, in bytes.
pub open spec fn output_size(h: SgiHeader) -> int {
    h.width * h.height * output_channels(h) * h.bytes_per_pixel
}

/// Output position of byte `b` of channel `c` of the pixel at column `x` of output row `y`.
pub open spec fn dst_index(h: SgiHeader, y: int, x: int, c: int, b: int) -> int {
    let bpp = h.bytes_per_pixel as int;
    let oc = output_channels(h);
    y * h.width * oc * bpp + x * oc * bpp + c * bpp + b
}

/// Position in the planar data that the conversion reads for that output byte: the plane of
/// channel `c`, then the row, where output rows run top to bottom and planar rows bottom to
/// top, then the column and the byte.
pub open spec fn src_index(h: SgiHeader, y: int, x: int, c: int, b: int) -> int {
    let bpp = h.bytes_per_pixel as int;
    c * h.width * h.height * bpp + (h.height - 1 - y) * h.width * bpp + x * bpp + b
}

/// The output byte for that position: the planar sample byte, or full opacity for the added
/// alpha channel.
pub open spec fn pixel_byte(h: SgiHeader, cd: Seq<u8>, y: int, x: int, c: int, b: int) -> u8 {
    if c < h.channels {
        cd[src_index(h, y, x, c, b)]
    } else {
        0xFF
    }
}

/// `out` is the interleaved image of the planar data `cd`.
pub open spec fn interleaved(h: SgiHeader, cd: Seq<u8>, out: Seq<u8>) -> bool {
    &&& out.len() == output_size(h)
    &&& forall|y: int, x: int, c: int, b: int|
        0 <= y < h.height && 0 <= x < h.width && 0 <= c < output_channels(h) && 0 <= b
            < h.bytes_per_pixel ==> #[trigger] out[dst_index(h, y, x, c, b)] == pixel_byte(
            h,
            cd,
            y,
            x,
            c,
            b,
        )
}

proof fn lemma_src_in_range(h: SgiHeader, y: int, x: int, c: int, b: int)
    requires
        header_ok(h),
        0 <= y < h.height,
        0 <= x < h.width,
        0 <= c < h.channels,
        0 <= b < h.bytes_per_pixel,
    ensures
        0 <= src_index(h, y, x, c, b) < total_size(h),
{
    let hh = h.height as int;
    let w = h.width as int;
    let ch = h.channels as int;
    let bpp = h.bytes_per_pixel as int;
    let row = hh - 1 - y;
    assert(0 <= x * bpp + b < w * bpp) by (nonlinear_arith)
        requires 0 <= x < w, 0 <= b < bpp;
    assert(0 <= row * w * bpp + (x * bpp + b) < hh * w * bpp) by (nonlinear_arith)
        requires 0 <= row < hh, 0 <= x * bpp + b < w * bpp;
    assert(0 <= c * w * hh * bpp + (row * w * bpp + (x * bpp + b)) < hh * w * ch * bpp) by (nonlinear_arith)
        requires 0 <= c < ch, 0 <= row * w * bpp + (x * bpp + b) < hh * w * bpp;
}

/// The output byte at position `i`, found by splitting `i` into row, column, channel and byte.
pub open spec fn flat_byte(h: SgiHeader, cd: Seq<u8>, i: int) -> u8 {
    let bpp = h.bytes_per_pixel as int;
    let oc = output_channels(h);
    let w = h.width as int;
    let k = i / bpp;
    let p = k / oc;
    pixel_byte(h, cd, p / w, p % w, k % oc, i % bpp)
}

/// A position given as row, column, channel and byte splits back into those parts.
proof fn lemma_split(h: SgiHeader, y: int, x: int, c: int, b: int)
    requires
        0 <= y,
        0 <= x < h.width,
        0 <= c < output_channels(h),
        0 <= b < h.bytes_per_pixel,
    ensures
        ({
            let i = dst_index(h, y, x, c, b);
            let bpp = h.bytes_per_pixel as int;
            let oc = output_channels(h);
            let w = h.width as int;
            &&& i % bpp == b
            &&& (i / bpp) % oc == c
            &&& (i / bpp / oc) % w == x
            &&& (i / bpp / oc) / w == y
        }),
{
    let bpp = h.bytes_per_pixel as int;
    let oc = output_channels(h);
    let w = h.width as int;
    let i = dst_index(h, y, x, c, b);
    assert(i == ((y * w + x) * oc + c) * bpp + b) by (nonlinear_arith)
        requires i == y * w * oc * bpp + x * oc * bpp + c * bpp + b;
    lemma_fundamental_div_mod_converse(i, bpp, (y * w + x) * oc + c, b);
    lemma_fundamental_div_mod_converse((y * w + x) * oc + c, oc, y * w + x, c);
    lemma_fundamental_div_mod_converse(y * w + x, w, y, x);
}

proof fn lemma_dst_steps(h: SgiHeader, y: int, x: int, c: int, b: int)
    ensures
        dst_index(h, y, x, c, b + 1) == dst_index(h, y, x, c, b) + 1,
        dst_index(h, y, x, c + 1, 0) == dst_index(h, y, x, c, h.bytes_per_pixel as int),
        dst_index(h, y, x + 1, 0, 0) == dst_index(h, y, x, output_channels(h), 0),
        dst_index(h, y + 1, 0, 0, 0) == dst_index(h, y, h.width as int, 0, 0),
        dst_index(h, h.height as int, 0, 0, 0) == output_size(h),
{
    let bpp = h.bytes_per_pixel as int;
    let oc = output_channels(h);
    let w = h.width as int;
    assert((c + 1) * bpp == c * bpp + bpp) by (nonlinear_arith);
    assert((x + 1) * oc * bpp == x * oc * bpp + oc * bpp) by (nonlinear_arith);
    assert((y + 1) * w * oc * bpp == y * w * oc * bpp + w * oc * bpp) by (nonlinear_arith);
    assert(h.height * w * oc * bpp == w * h.height * oc * bpp) by (nonlinear_arith);
}

proof fn lemma_dst_bound(h: SgiHeader, y: int, x: int, c: int, b: int)
    requires
        0 <= y < h.height,
        0 <= x < h.width,
        0 <= c < output_channels(h),
        0 <= b < h.bytes_per_pixel,
    ensures
        0 <= dst_index(h, y, x, c, b) < output_size(h),
{
    let bpp = h.bytes_per_pixel as int;
    let oc = output_channels(h);
    let w = h.width as int;
    let hh = h.height as int;
    assert(0 <= y * w * oc * bpp + x * oc * bpp + c * bpp + b < w * hh * oc * bpp) by (nonlinear_arith)
        requires 0 <= y < hh, 0 <= x < w, 0 <= c < oc, 0 <= b < bpp;
}

/// Pushes the byte for output position `(y, x, c, b)` onto `out`.
fn push_pixel_byte(h: &SgiHeader, cd: &[u8], out: &mut Vec<u8>, y: usize, x: usize, c: usize, b: usize)
    requires
        header_ok(*h),
        cd@.len() == total_size(*h),
        y < h.height,
        x < h.width,
        c < output_channels(*h),
        b < h.bytes_per_pixel,
        old(out)@.len() == dst_index(*h, y as int, x as int, c as int, b as int),
        old(out)@ == Seq::new(old(out)@.len(), |i: int| flat_byte(*h, cd@, i)),
    ensures
        final(out)@ == Seq::new(final(out)@.len(), |i: int| flat_byte(*h, cd@, i)),
        final(out)@.len() == old(out)@.len() + 1,
{
    proof {
        lemma_split(*h, y as int, x as int, c as int, b as int);
    }
    let ghost v = pixel_byte(*h, cd@, y as int, x as int, c as int, b as int);
    assert(flat_byte(*h, cd@, old(out)@.len() as int) == v);
    if c < h.channels as usize {
        proof {
            lemma_src_in_range(*h, y as int, x as int, c as int, b as int);
        }
        let src = source_position(h, y, x, c, b);
        out.push(cd[src]);
    } else {
        out.push(0xFF);
    }
    assert(out@ =~= Seq::new(out@.len(), |i: int| flat_byte(*h, cd@, i)));
}

/// The planar data position `src_index` for an in-range sample.
fn source_position(h: &SgiHeader, y: usize, x: usize, c: usize, b: usize) -> (p: usize)
    requires
        header_ok(*h),
        y < h.height,
        x < h.width,
        c < h.channels,
        b < h.bytes_per_pixel,
    ensures
        p == src_index(*h, y as int, x as int, c as int, b as int),
{
    proof {
        lemma_src_in_range(*h, y as int, x as int, c as int, b as int);
    }
    let bpp = h.bytes_per_pixel as usize;
    let width = h.width as usize;
    let height = h.height as usize;
    proof {
        lemma_src_parts(height as int, width as int, h.channels as int, bpp as int, y as int, x as int, c as int);
    }
    let row: usize = height - 1 - y;
    let r: usize = row * width * bpp;
    let q: usize = c * width * height * bpp;
    q + r + x * bpp + b
}

/// Every partial product in `src_index` stays within the planar data size.
proof fn lemma_src_parts(hh: int, w: int, ch: int, bpp: int, y: int, x: int, c: int)
    requires
        1 <= bpp,
        0 <= y < hh,
        0 <= x < w,
        0 <= c < ch,
    ensures
        0 <= (hh - 1 - y) * w <= hh * w * ch * bpp,
        0 <= (hh - 1 - y) * w * bpp <= hh * w * ch * bpp,
        0 <= c * w <= hh * w * ch * bpp,
        0 <= c * w * hh <= hh * w * ch * bpp,
        0 <= c * w * hh * bpp <= hh * w * ch * bpp,
        0 <= x * bpp <= hh * w * ch * bpp,
{
    assert(0 <= (hh - 1 - y) * w <= hh * w) by (nonlinear_arith) requires 0 <= y < hh, 0 <= w;
    assert(hh * w <= hh * w * ch * bpp) by (nonlinear_arith) requires 1 <= hh, 0 <= w, 1 <= ch, 1 <= bpp;
    assert(0 <= (hh - 1 - y) * w * bpp <= hh * w * bpp) by (nonlinear_arith) requires 0 <= y < hh, 0 <= w, 1 <= bpp;
    assert(hh * w * bpp <= hh * w * ch * bpp) by (nonlinear_arith) requires 1 <= hh, 0 <= w, 1 <= ch, 1 <= bpp;
    assert(0 <= c * w <= ch * w) by (nonlinear_arith) requires 0 <= c < ch, 0 <= w;
    assert(ch * w <= hh * w * ch * bpp) by (nonlinear_arith) requires 1 <= hh, 0 <= w, 1 <= ch, 1 <= bpp;
    assert(0 <= c * w * hh <= ch * w * hh) by (nonlinear_arith) requires 0 <= c < ch, 0 <= w, 1 <= hh;
    assert(ch * w * hh <= hh * w * ch * bpp) by (nonlinear_arith) requires 1 <= hh, 0 <= w, 1 <= ch, 1 <= bpp;
    assert(0 <= c * w * hh * bpp <= ch * w * hh * bpp) by (nonlinear_arith) requires 0 <= c < ch, 0 <= w, 1 <= hh, 1 <= bpp;
    assert(ch * w * hh * bpp == hh * w * ch * bpp) by (nonlinear_arith);
    assert(x * bpp <= w * bpp) by (nonlinear_arith) requires 0 <= x < w, 1 <= bpp;
    assert(w * bpp <= hh * w * ch * bpp) by (nonlinear_arith) requires 1 <= hh, 0 <= w, 1 <= ch, 1 <= bpp;
}

/// Converts planar sample data to interleaved pixels, flipping the image vertically and giving
/// RGB images an opaque alpha channel.
pub fn interleave(h: &SgiHeader, cd: &[u8]) -> (out: Vec<u8>)
    requires
        header_ok(*h),
        cd@.len() == total_size(*h),
        output_size(*h) <= usize::MAX,
    ensures
        interleaved(*h, cd@, out@),
{
    let width = h.width as usize;
    let height = h.height as usize;
    let channels = h.channels as usize;
    let bpp = h.bytes_per_pixel as usize;
    let oc: usize = if channels == 3 { 4 } else { channels };
    let mut out: Vec<u8> = Vec::new();
    assert(out@ =~= Seq::new(0, |i: int| flat_byte(*h, cd@, i)));
    let mut y: usize = 0;
    while y < height
        invariant
            header_ok(*h),
                cd@.len() == total_size(*h),
            width == h.width,
            height == h.height,
            channels == h.channels,
            bpp == h.bytes_per_pixel,
            oc == output_channels(*h),
            y <= height,
            out@.len() == dst_index(*h, y as int, 0, 0, 0),
            out@ == Seq::new(out@.len(), |i: int| flat_byte(*h, cd@, i)),
        decreases height - y,
    {
        let mut x: usize = 0;
        while x < width
            invariant
                header_ok(*h),
                        cd@.len() == total_size(*h),
                width == h.width,
                height == h.height,
                channels == h.channels,
                bpp == h.bytes_per_pixel,
                oc == output_channels(*h),
                y < height,
                x <= width,
                out@.len() == dst_index(*h, y as int, x as int, 0, 0),
                out@ == Seq::new(out@.len(), |i: int| flat_byte(*h, cd@, i)),
            decreases width - x,
        {
            let mut c: usize = 0;
            while c < oc
                invariant
                    header_ok(*h),
                                cd@.len() == total_size(*h),
                    width == h.width,
                    height == h.height,
                    channels == h.channels,
                    bpp == h.bytes_per_pixel,
                    oc == output_channels(*h),
                    y < height,
                    x < width,
                    c <= oc,
                    out@.len() == dst_index(*h, y as int, x as int, c as int, 0),
                    out@ == Seq::new(out@.len(), |i: int| flat_byte(*h, cd@, i)),
                decreases oc - c,
            {
                let mut b: usize = 0;
                while b < bpp
                    invariant
                        header_ok(*h),
                                        cd@.len() == total_size(*h),
                        width == h.width,
                        height == h.height,
                        channels == h.channels,
                        bpp == h.bytes_per_pixel,
                        oc == output_channels(*h),
                        y < height,
                        x < width,
                        c < oc,
                        b <= bpp,
                        out@.len() == dst_index(*h, y as int, x as int, c as int, b as int),
                        out@ == Seq::new(out@.len(), |i: int| flat_byte(*h, cd@, i)),
                    decreases bpp - b,
                {
                    proof {
                        lemma_dst_bound(*h, y as int, x as int, c as int, b as int);
                        lemma_dst_steps(*h, y as int, x as int, c as int, b as int);
                    }
                    push_pixel_byte(h, cd, &mut out, y, x, c, b);
                    b = b + 1;
                }
                proof {
                    lemma_dst_steps(*h, y as int, x as int, c as int, 0);
                }
                c = c + 1;
            }
            proof {
                lemma_dst_steps(*h, y as int, x as int, c as int, 0);
            }
            x = x + 1;
        }
        proof {
            lemma_dst_steps(*h, y as int, x as int, 0, 0);
        }
        y = y + 1;
    }
    proof {
        lemma_dst_steps(*h, y as int, 0, 0, 0);
        assert forall|yy: int, xx: int, cc: int, bb: int|
            0 <= yy < h.height && 0 <= xx < h.width && 0 <= cc < output_channels(*h) && 0 <= bb
                < h.bytes_per_pixel implies #[trigger] out@[dst_index(*h, yy, xx, cc, bb)]
                == pixel_byte(*h, cd@, yy, xx, cc, bb) by {
            lemma_split(*h, yy, xx, cc, bb);
            lemma_dst_bound(*h, yy, xx, cc, bb);
        }
    }
    out
}

/// An RGB image decodes to opaque pixels: every byte of the added alpha channel is 0xFF, and the
/// color channels come from the planar data.
pub proof fn lemma_rgb_opaque(h: SgiHeader, cd: Seq<u8>, out: Seq<u8>)
    requires
        h.channels == 3,
        interleaved(h, cd, out),
    ensures
        output_channels(h) == 4,
        forall|y: int, x: int, b: int|
            0 <= y < h.height && 0 <= x < h.width && 0 <= b < h.bytes_per_pixel ==> #[trigger] out[dst_index(h, y, x, 3, b)] == 0xFF,
{
    assert forall|y: int, x: int, b: int|
        0 <= y < h.height && 0 <= x < h.width && 0 <= b < h.bytes_per_pixel implies #[trigger] out[dst_index(h, y, x, 3, b)] == 0xFF by {
        assert(pixel_byte(h, cd, y, x, 3, b) == 0xFF);
    }
}

/// Pixel layout of a decoded image.
#[derive(Clone, Copy, Debug, PartialEq, Eq, Structural)]
pub enum TextureFormat {
    R8Unorm,
    Rgba8Unorm,
    R16Unorm,
    Rgba16Unorm,
}

/// Dimensionality of a decoded image.
#[derive(Clone, Copy, Debug, PartialEq, Eq, Structural)]
pub enum TextureDimension {
    D1,
    D2,
    D3,
}

/// A decoded image: interleaved pixels, top row first.
pub struct SgiImage {
    pub width: u32,
    pub height: u32,
    pub dimension: TextureDimension,
    pub format: TextureFormat,
    pub data: Vec<u8>,
}

/// The texture format for a header's sample size and channel count.
pub open spec fn spec_format(h: SgiHeader) -> TextureFormat {
    if h.bytes_per_pixel == 1 {
        if h.channels == 1 {
            TextureFormat::R8Unorm
        } else {
            TextureFormat::Rgba8Unorm
        }
    } else {
        if h.channels == 1 {
            TextureFormat::R16Unorm
        } else {
            TextureFormat::Rgba16Unorm
        }
    }
}

/// The channels of one texel of a format.
pub open spec fn format_channels(f: TextureFormat) -> int {
    match f {
        TextureFormat::R8Unorm | TextureFormat::R16Unorm => 1,
        TextureFormat::Rgba8Unorm | TextureFormat::Rgba16Unorm => 4,
    }
}

/// The bytes of one channel of a format.
pub open spec fn format_channel_bytes(f: TextureFormat) -> int {
    match f {
        TextureFormat::R8Unorm | TextureFormat::Rgba8Unorm => 1,
        TextureFormat::R16Unorm | TextureFormat::Rgba16Unorm => 2,
    }
}

/// A decoded image's format describes its pixels: it has as many channels as the interleaved
/// output (one for grayscale, four for RGB and RGBA) and as many bytes per channel as the
/// samples, so the pixel data holds exactly width times height texels of the format.
pub proof fn lemma_format_matches_pixels(h: SgiHeader, cd: Seq<u8>, out: Seq<u8>)
    requires
        h.channels == 1 || h.channels == 3 || h.channels == 4,
        h.bytes_per_pixel == 1 || h.bytes_per_pixel == 2,
    ensures
        format_channels(spec_format(h)) == output_channels(h),
        format_channel_bytes(spec_format(h)) == h.bytes_per_pixel,
        interleaved(h, cd, out) ==> out.len() == h.width * h.height * format_channels(spec_format(h))
            * format_channel_bytes(spec_format(h)),
{
}

/// The texture dimension a header declares.
pub open spec fn spec_dimension(h: SgiHeader) -> TextureDimension {
    if h.dimension == 1 {
        TextureDimension::D1
    } else if h.dimension == 2 {
        TextureDimension::D2
    } else {
        TextureDimension::D3
    }
}

/// The planar image data of the file `d` with header `h`: run-length decoded, or the raw
/// bytes that follow the header.
pub open spec fn spec_planar(h: SgiHeader, d: Seq<u8>) -> Result<Seq<u8>, SgiError> {
    if h.compression == 1 {
        spec_decode_rle(h, d, HEADER_SIZE as int)
    } else if HEADER_SIZE + total_size(h) <= d.len() {
        Ok(d.subrange(HEADER_SIZE as int, HEADER_SIZE + total_size(h)))
    } else {
        Err(eof())
    }
}

/// Images whose planar data and interleaved pixels fit in memory.
pub open spec fn decodable(h: SgiHeader) -> bool {
    &&& total_size(h) <= usize::MAX
    &&& output_size(h) <= usize::MAX
}

/// Tests whether an image with header `h` can be decoded (see `decodable`).
pub fn supports(h: &SgiHeader) -> (b: bool)
    requires
        h.bytes_per_pixel == 1 || h.bytes_per_pixel == 2,
        h.channels == 1 || h.channels == 3 || h.channels == 4,
    ensures
        b == decodable(*h),
{
    let oc: usize = if h.channels == 3 { 4 } else { h.channels as usize };
    let hw = (h.height as usize).checked_mul(h.width as usize);
    let total = match hw {
        Some(a) => match a.checked_mul(h.channels as usize) {
            Some(b) => b.checked_mul(h.bytes_per_pixel as usize),
            None => None,
        },
        None => None,
    };
    let out = match (h.width as usize).checked_mul(h.height as usize) {
        Some(a) => match a.checked_mul(oc) {
            Some(b) => b.checked_mul(h.bytes_per_pixel as usize),
            None => None,
        },
        None => None,
    };
    proof {
        let hh = h.height as int;
        let w = h.width as int;
        let ch = h.channels as int;
        let bpp = h.bytes_per_pixel as int;
        assert(hh * w * ch * bpp >= hh * w * ch && hh * w * ch >= hh * w) by (nonlinear_arith)
            requires 0 <= hh, 0 <= w, 1 <= ch, 1 <= bpp;
        assert(w * hh * oc * bpp >= w * hh * oc && w * hh * oc >= w * hh) by (nonlinear_arith)
            requires 0 <= hh, 0 <= w, 1 <= oc, 1 <= bpp;
        assert(w * hh == hh * w) by (nonlinear_arith);
    }
    total.is_some() && out.is_some()
}

impl SgiImageLoader {
    /// File extensions of SGI images.
    pub fn extensions(&self) -> (r: Vec<&'static str>)
        ensures
            r@.len() == 6,
            r@[0]@ == "sgi"@,
            r@[1]@ == "rgb"@,
            r@[2]@ == "rgba"@,
            r@[3]@ == "bw"@,
            r@[4]@ == "int"@,
            r@[5]@ == "inta"@,
    {
        vec!["sgi", "rgb", "rgba", "bw", "int", "inta"]
    }

    /// Decodes a whole SGI file into interleaved pixels.
    pub fn decode(&self, input: &[u8]) -> (r: Result<SgiImage, SgiError>)
        requires
            spec_header(Endian::Big, input@) matches Ok(h) ==> decodable(h),
        ensures
            match spec_header(Endian::Big, input@) {
                Err(e) => r == Err::<SgiImage, SgiError>(e),
                Ok(h) => match spec_planar(h, input@) {
                    Err(e) => r == Err::<SgiImage, SgiError>(e),
                    Ok(cd) => r matches Ok(img) && img.width == h.width && img.height == h.height
                        && img.dimension == spec_dimension(h) && img.format == spec_format(h)
                        && interleaved(h, cd, img.data@),
                },
            },
    {
        let mut cursor = Reader::new(input, Endian::Big);
        let header = match SgiHeader::read(&mut cursor) {
            Ok(h) => h,
            Err(e) => return Err(e),
        };
        let ghost d = input@;
        let width = header.width as usize;
        let height = header.height as usize;
        let channels = header.channels as usize;
        let bpp = header.bytes_per_pixel as usize;
        let data = if header.compression == 1 {
            let planar = match self.decode_rle(&mut cursor, &header) {
                Ok(v) => v,
                Err(e) => return Err(e),
            };
            interleave(&header, planar.as_slice())
        } else {
            let total = height * width * channels * bpp;
            let planar = match cursor.read_slice(total) {
                Ok(s) => s,
                Err(e) => return Err(data_error(e)),
            };
            interleave(&header, planar)
        };
        let format = if header.bytes_per_pixel == 1 {
            if header.channels == 1 {
                TextureFormat::R8Unorm
            } else {
                TextureFormat::Rgba8Unorm
            }
        } else {
            if header.channels == 1 {
                TextureFormat::R16Unorm
            } else {
                TextureFormat::Rgba16Unorm
            }
        };
        let dimension = if header.dimension == 1 {
            TextureDimension::D1
        } else if header.dimension == 2 {
            TextureDimension::D2
        } else {
            TextureDimension::D3
        };
        Ok(SgiImage { width: header.width as u32, height: header.height as u32, dimension, format, data })
    }
}

} // verus!
