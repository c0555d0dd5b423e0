use vstd::prelude::*;
use crate::ascii_ops::{first_word, get_int, ignore_comment, ignore_string_comment, int_of, trim, trim_line, before_comment};
use crate::bin_ops::{decode_bytes, decode_u16, decode_u32, latin1, u16_of, u32_of, Endian};
use crate::types::{Real, RealV};

verus! {

/// `p` moved on by `n`; the counter stops at the largest `usize`.
pub open spec fn adv(p: int, n: int) -> int {
    if p + n <= usize::MAX {
        p + n
    } else {
        usize::MAX as int
    }
}

/// Whether `n` bytes from `p` lie within `d`.
pub open spec fn fits(d: Seq<u8>, p: int, n: int) -> bool {
    p + n <= d.len()
}

/// The `n` bytes from `p`, or none when they run past the end.
pub open spec fn bytes_at(d: Seq<u8>, p: int, n: int) -> Seq<u8> {
    if fits(d, p, n) {
        d.subrange(p, p + n)
    } else {
        seq![]
    }
}

pub open spec fn u8_at(d: Seq<u8>, p: int) -> u8 {
    if fits(d, p, 1) {
        d[p]
    } else {
        0
    }
}

pub open spec fn u16_at(d: Seq<u8>, o: Endian, p: int) -> u16 {
    if fits(d, p, 2) {
        u16_of(o, d.subrange(p, p + 2))
    } else {
        0
    }
}

pub open spec fn u32_at(d: Seq<u8>, o: Endian, p: int) -> u32 {
    if fits(d, p, 4) {
        u32_of(o, d.subrange(p, p + 4))
    } else {
        0
    }
}

/// Where the line that starts at `p` ends: after its newline, or at the end of `d`.
pub open spec fn line_end(d: Seq<u8>, p: int) -> int
    decreases d.len() - p,
{
    if p >= d.len() {
        if p > d.len() {
            p
        } else {
            d.len() as int
        }
    } else if d[p] == 10 {
        p + 1
    } else {
        line_end(d, p + 1)
    }
}

/// The line that starts at `p`, newline included, one character per byte.
pub open spec fn line_at(d: Seq<u8>, p: int) -> Seq<char> {
    if p < d.len() {
        latin1(d.subrange(p, line_end(d, p)))
    } else {
        seq![]
    }
}

proof fn lemma_line_end(d: Seq<u8>, p: int)
    requires
        0 <= p <= d.len(),
    ensures
        p <= line_end(d, p) <= d.len(),
    decreases d.len() - p,
{
    if p < d.len() && d[p] != 10 {
        lemma_line_end(d, p + 1);
    }
}

/// A sequential reader over the bytes of one source. Reads that run past the
/// end give zero or empty values and still move the position on.
pub struct FileStream {
    pub data: Vec<u8>,
    pub position: usize,
    /// The byte order of multi-byte fields.
    pub order: Endian,
}

impl FileStream {
    pub open spec fn d(&self) -> Seq<u8> {
        self.data@
    }

    pub open spec fn p(&self) -> int {
        self.position as int
    }

    /// The same source, read up to `p`.
    pub open spec fn moved(&self, other: &FileStream, p: int) -> bool {
        &&& other.data@ == self.data@
        &&& other.order == self.order
        &&& other.position == p
    }

    pub fn new(data: Vec<u8>, order: Endian) -> (r: FileStream)
        ensures
            r.data@ == data@,
            r.position == 0,
            r.order == order,
    {
        FileStream { data, position: 0, order }
    }

    fn has(&self, n: usize) -> (r: bool)
        ensures
            r == fits(self.d(), self.p(), n as int),
            self.data@.len() <= usize::MAX,
    {
        self.position <= self.data.len() && self.data.len() - self.position >= n
    }

    /// Discards `count` units of `unit` bytes each.
    pub fn skip_units(&mut self, count: u32, unit: u32)
        ensures
            old(self).moved(final(self), adv(old(self).p(), count * unit)),
    {
        assert(count as u64 * unit as u64 <= 0xffff_ffff * 0xffff_ffff) by (nonlinear_arith)
            requires
                unit <= 0xffff_ffff,
                count <= 0xffff_ffff,
        ;
        let total: u64 = count as u64 * unit as u64;
        if total <= usize::MAX as u64 {
            self.skip(total as usize);
        } else {
            self.position = usize::MAX;
        }
    }

    /// Moves the position to `pos`.
    pub fn seek(&mut self, pos: usize)
        ensures
            old(self).moved(final(self), pos as int),
    {
        self.position = pos;
    }

    /// Discards `n` bytes.
    pub fn skip(&mut self, n: usize)
        ensures
            old(self).moved(final(self), adv(old(self).p(), n as int)),
    {
        self.position = self.position.saturating_add(n);
    }

    /// Reads `size` bytes; none when they run past the end.
    pub fn read(&mut self, size: usize) -> (r: Vec<u8>)
        ensures
            r@ == bytes_at(old(self).d(), old(self).p(), size as int),
            old(self).moved(final(self), adv(old(self).p(), size as int)),
    {
        let mut out: Vec<u8> = Vec::new();
        if self.has(size) {
            let start = self.position;
            let mut i: usize = 0;
            while i < size
                invariant
                    i <= size,
                    start + size <= self.data@.len(),
                    self.data@.len() <= usize::MAX,
                    out@ == self.data@.subrange(start as int, start + i),
                decreases size - i,
            {
                out.push(self.data[start + i]);
                i = i + 1;
                assert(out@ =~= self.data@.subrange(start as int, start + i));
            }
        }
        self.skip(size);
        out
    }

    pub fn read_byte(&mut self) -> (r: u8)
        ensures
            r == u8_at(old(self).d(), old(self).p()),
            old(self).moved(final(self), adv(old(self).p(), 1)),
    {
        let r = if self.has(1) {
            self.data[self.position]
        } else {
            0
        };
        self.skip(1);
        r
    }

    pub fn read_u16(&mut self) -> (r: u16)
        ensures
            r == u16_at(old(self).d(), old(self).order, old(self).p()),
            old(self).moved(final(self), adv(old(self).p(), 2)),
    {
        let r = if self.has(2) {
            let p = self.position;
            let b = [self.data[p], self.data[p + 1]];
            assert(b@ =~= self.data@.subrange(p as int, p + 2));
            decode_u16(self.order, b.as_slice())
        } else {
            0
        };
        self.skip(2);
        r
    }

    pub fn read_i16(&mut self) -> (r: i16)
        ensures
            r == u16_at(old(self).d(), old(self).order, old(self).p()) as i16,
            old(self).moved(final(self), adv(old(self).p(), 2)),
    {
        self.read_u16() as i16
    }

    pub fn read_u32(&mut self) -> (r: u32)
        ensures
            r == u32_at(old(self).d(), old(self).order, old(self).p()),
            old(self).moved(final(self), adv(old(self).p(), 4)),
    {
        let r = if self.has(4) {
            let p = self.position;
            let b = [self.data[p], self.data[p + 1], self.data[p + 2], self.data[p + 3]];
            assert(b@ =~= self.data@.subrange(p as int, p + 4));
            decode_u32(self.order, b.as_slice())
        } else {
            0
        };
        self.skip(4);
        r
    }

    /// Reads a 32-bit float field, kept as its bit pattern.
    pub fn read_f32(&mut self) -> (r: Real)
        ensures
            r@ == RealV::Bits(u32_at(old(self).d(), old(self).order, old(self).p())),
            old(self).moved(final(self), adv(old(self).p(), 4)),
    {
        Real::Bits(self.read_u32())
    }

    /// Reads `length` bytes as one character each; empty when they run past the end.
    pub fn read_string_bin(&mut self, length: usize) -> (r: String)
        ensures
            r@ == latin1(bytes_at(old(self).d(), old(self).p(), length as int)),
            old(self).moved(final(self), adv(old(self).p(), length as int)),
    {
        let bin = self.read(length);
        decode_bytes(&bin)
    }

    /// Reads one line, newline included, one character per byte; empty at the end.
    pub fn read_line(&mut self) -> (r: String)
        ensures
            r@ == line_at(old(self).d(), old(self).p()),
            final(self).p() >= old(self).p(),
            old(self).moved(final(self), if old(self).p() < old(self).d().len() {
                line_end(old(self).d(), old(self).p())
            } else {
                old(self).p()
            }),
    {
        let n = self.data.len();
        if self.position >= n {
            return String::new();
        }
        let start = self.position;
        let mut j = start;
        while j < n
            invariant
                start <= j <= n,
                n == self.data@.len(),
                start < n,
                line_end(self.data@, start as int) == line_end(self.data@, j as int),
            ensures
                start <= j <= n,
                line_end(self.data@, start as int) == if j < n {
                    j + 1
                } else {
                    n as int
                },
            decreases n - j,
        {
            if self.data[j] == 10 {
                break;
            }
            j = j + 1;
        }
        let end = if j < n {
            j + 1
        } else {
            n
        };
        let mut bytes: Vec<u8> = Vec::new();
        let mut i = start;
        while i < end
            invariant
                start <= i <= end <= n,
                n == self.data@.len(),
                bytes@ == self.data@.subrange(start as int, i as int),
            decreases end - i,
        {
            bytes.push(self.data[i]);
            i = i + 1;
            assert(bytes@ =~= self.data@.subrange(start as int, i as int));
        }
        self.position = end;
        decode_bytes(&bytes)
    }

    /// Reads one line without its surrounding white space.
    pub fn read_line_trim(&mut self) -> (r: String)
        ensures
            r@ == trim(line_at(old(self).d(), old(self).p())),
            old(self).moved(final(self), if old(self).p() < old(self).d().len() {
                line_end(old(self).d(), old(self).p())
            } else {
                old(self).p()
            }),
    {
        let line = self.read_line();
        trim_line(line.as_str())
    }

    /// Reads one line as an integer: its first token, 0 when that is no integer.
    pub fn read_int(&mut self) -> (r: i32)
        ensures
            r == int_of(first_word(trim(line_at(old(self).d(), old(self).p())))),
            old(self).moved(final(self), if old(self).p() < old(self).d().len() {
                line_end(old(self).d(), old(self).p())
            } else {
                old(self).p()
            }),
    {
        let line = self.read_line_trim();
        let value = ignore_comment(&line);
        get_int(&value)
    }

    /// Reads one line as free text: everything before its comment marker.
    pub fn read_string(&mut self) -> (r: String)
        ensures
            r@ == before_comment(trim(line_at(old(self).d(), old(self).p()))),
            old(self).moved(final(self), if old(self).p() < old(self).d().len() {
                line_end(old(self).d(), old(self).p())
            } else {
                old(self).p()
            }),
    {
        let line = self.read_line_trim();
        ignore_string_comment(&line)
    }
}

} // verus!
