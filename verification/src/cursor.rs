//! A big-endian byte reader over a slice.

use crate::error::{CursorError, ReadError, ClassFormatErr, SpecRead, spec_eof};
use vstd::prelude::*;

verus! {

/// Big-endian 16-bit value of two bytes.
pub open spec fn be_u16(b0: u8, b1: u8) -> u16 {
    (b0 as int * 0x100 + b1 as int) as u16
}

/// Big-endian 32-bit value of four bytes.
pub open spec fn be_u32(b0: u8, b1: u8, b2: u8, b3: u8) -> u32 {
    (b0 as int * 0x1000000 + b1 as int * 0x10000 + b2 as int * 0x100 + b3 as int) as u32
}

/// Big-endian 64-bit value of eight bytes.
pub open spec fn be_u64(d: Seq<u8>, p: int) -> u64 {
    (be_u32(d[p], d[p + 1], d[p + 2], d[p + 3]) as int * 0x100000000
        + be_u32(d[p + 4], d[p + 5], d[p + 6], d[p + 7]) as int) as u64
}

/// `n` bytes are available at `p`.
pub open spec fn avail(d: Seq<u8>, p: int, n: int) -> bool {
    0 <= p && p + n <= d.len()
}

pub open spec fn spec_u8(d: Seq<u8>, p: int) -> Option<(u8, int)> {
    if avail(d, p, 1) { Some((d[p], p + 1)) } else { None }
}

pub open spec fn spec_i8(d: Seq<u8>, p: int) -> Option<(i8, int)> {
    if avail(d, p, 1) { Some((d[p] as i8, p + 1)) } else { None }
}

pub open spec fn spec_u16(d: Seq<u8>, p: int) -> Option<(u16, int)> {
    if avail(d, p, 2) { Some((be_u16(d[p], d[p + 1]), p + 2)) } else { None }
}

pub open spec fn spec_i16(d: Seq<u8>, p: int) -> Option<(i16, int)> {
    if avail(d, p, 2) { Some((be_u16(d[p], d[p + 1]) as i16, p + 2)) } else { None }
}

pub open spec fn spec_u32(d: Seq<u8>, p: int) -> Option<(u32, int)> {
    if avail(d, p, 4) { Some((be_u32(d[p], d[p + 1], d[p + 2], d[p + 3]), p + 4)) } else { None }
}

pub open spec fn spec_i32(d: Seq<u8>, p: int) -> Option<(i32, int)> {
    if avail(d, p, 4) {
        Some((be_u32(d[p], d[p + 1], d[p + 2], d[p + 3]) as i32, p + 4))
    } else {
        None
    }
}

pub open spec fn spec_u64(d: Seq<u8>, p: int) -> Option<(u64, int)> {
    if avail(d, p, 8) { Some((be_u64(d, p), p + 8)) } else { None }
}

pub open spec fn spec_i64(d: Seq<u8>, p: int) -> Option<(i64, int)> {
    if avail(d, p, 8) { Some((be_u64(d, p) as i64, p + 8)) } else { None }
}

pub open spec fn spec_bytes(d: Seq<u8>, p: int, n: int) -> Option<(Seq<u8>, int)> {
    if 0 <= n && avail(d, p, n) { Some((d.subrange(p, p + n), p + n)) } else { None }
}

/// A primitive read seen as a reader result: running out of input is the only failure.
pub open spec fn lift<T>(r: Option<(T, int)>) -> SpecRead<T> {
    match r {
        Some(x) => Ok(x),
        None => Err(spec_eof()),
    }
}

/// A reader over a byte slice, with the position of the next byte to read.
pub struct ByteCursor<'a> {
    pub data: &'a [u8],
    pub pos: usize,
}

/// `new` is `old` after a primitive read whose specification is `s`:
/// on success it returns the value and moves to the position after it;
/// on failure it reports the end of input and stays where it was.
pub open spec fn stepped<'a, T>(
    old: ByteCursor<'a>,
    new: ByteCursor<'a>,
    r: Result<T, CursorError>,
    s: Option<(T, int)>,
) -> bool {
    &&& new.data@ == old.data@
    &&& match s {
        Some((v, q)) => r == Ok::<T, CursorError>(v) && new.pos == q,
        None => r == Err::<T, CursorError>(CursorError::UnexpectedEof) && new.pos == old.pos,
    }
}

/// Same as [`stepped`] for reads that report a [`ReadError`].
pub open spec fn read_stepped<'a, T>(
    old: ByteCursor<'a>,
    new: ByteCursor<'a>,
    r: Result<T, ReadError>,
    s: Option<(T, int)>,
) -> bool {
    &&& new.data@ == old.data@
    &&& match s {
        Some((v, q)) => r == Ok::<T, ReadError>(v) && new.pos == q,
        None => r == Err::<T, ReadError>(ReadError::Format(ClassFormatErr::Cursor(CursorError::UnexpectedEof))) && new.pos == old.pos,
    }
}

impl<'a> ByteCursor<'a> {
    pub open spec fn inv(&self) -> bool {
        self.pos <= self.data@.len()
    }

    pub fn new(data: &'a [u8]) -> (c: Self)
        ensures
            c.data@ == data@,
            c.pos == 0,
    {
        ByteCursor { data, pos: 0 }
    }

    /// Number of bytes not read yet.
    pub fn remaining(&self) -> (n: usize)
        requires
            self.inv(),
        ensures
            n == self.data@.len() - self.pos,
    {
        self.data.len() - self.pos
    }

    pub fn u8(&mut self) -> (r: Result<u8, CursorError>)
        requires
            old(self).inv(),
        ensures
            final(self).inv(),
            stepped(*old(self), *final(self), r, spec_u8(old(self).data@, old(self).pos as int)),
    {
        if self.data.len() - self.pos < 1 {
            return Err(CursorError::UnexpectedEof);
        }
        let b = self.data[self.pos];
        self.pos = self.pos + 1;
        Ok(b)
    }

    pub fn i8(&mut self) -> (r: Result<i8, CursorError>)
        requires
            old(self).inv(),
        ensures
            final(self).inv(),
            stepped(*old(self), *final(self), r, spec_i8(old(self).data@, old(self).pos as int)),
    {
        if self.data.len() - self.pos < 1 {
            return Err(CursorError::UnexpectedEof);
        }
        let b = self.data[self.pos];
        self.pos = self.pos + 1;
        Ok(b as i8)
    }

    pub fn u16(&mut self) -> (r: Result<u16, CursorError>)
        requires
            old(self).inv(),
        ensures
            final(self).inv(),
            stepped(*old(self), *final(self), r, spec_u16(old(self).data@, old(self).pos as int)),
    {
        if self.data.len() - self.pos < 2 {
            return Err(CursorError::UnexpectedEof);
        }
        let p = self.pos;
        let v = (self.data[p] as u16) * 0x100 + (self.data[p + 1] as u16);
        self.pos = p + 2;
        Ok(v)
    }

    pub fn i16(&mut self) -> (r: Result<i16, CursorError>)
        requires
            old(self).inv(),
        ensures
            final(self).inv(),
            stepped(*old(self), *final(self), r, spec_i16(old(self).data@, old(self).pos as int)),
    {
        match self.u16() {
            Ok(v) => Ok(v as i16),
            Err(e) => Err(e),
        }
    }

    pub fn u32(&mut self) -> (r: Result<u32, CursorError>)
        requires
            old(self).inv(),
        ensures
            final(self).inv(),
            stepped(*old(self), *final(self), r, spec_u32(old(self).data@, old(self).pos as int)),
    {
        if self.data.len() - self.pos < 4 {
            return Err(CursorError::UnexpectedEof);
        }
        let p = self.pos;
        let v = (self.data[p] as u32) * 0x1000000 + (self.data[p + 1] as u32) * 0x10000
            + (self.data[p + 2] as u32) * 0x100 + (self.data[p + 3] as u32);
        self.pos = p + 4;
        Ok(v)
    }

    pub fn i32(&mut self) -> (r: Result<i32, CursorError>)
        requires
            old(self).inv(),
        ensures
            final(self).inv(),
            stepped(*old(self), *final(self), r, spec_i32(old(self).data@, old(self).pos as int)),
    {
        match self.u32() {
            Ok(v) => Ok(v as i32),
            Err(e) => Err(e),
        }
    }

    pub fn u64(&mut self) -> (r: Result<u64, CursorError>)
        requires
            old(self).inv(),
        ensures
            final(self).inv(),
            stepped(*old(self), *final(self), r, spec_u64(old(self).data@, old(self).pos as int)),
    {
        if self.data.len() - self.pos < 8 {
            return Err(CursorError::UnexpectedEof);
        }
        let hi = match self.u32() {
            Ok(v) => v,
            Err(e) => return Err(e),
        };
        let lo = match self.u32() {
            Ok(v) => v,
            Err(e) => return Err(e),
        };
        Ok((hi as u64) * 0x100000000 + (lo as u64))
    }

    pub fn i64(&mut self) -> (r: Result<i64, CursorError>)
        requires
            old(self).inv(),
        ensures
            final(self).inv(),
            stepped(*old(self), *final(self), r, spec_i64(old(self).data@, old(self).pos as int)),
    {
        match self.u64() {
            Ok(v) => Ok(v as i64),
            Err(e) => Err(e),
        }
    }

    /// Reads `n` bytes.
    pub fn bytes(&mut self, n: usize) -> (r: Result<Vec<u8>, CursorError>)
        requires
            old(self).inv(),
        ensures
            final(self).inv(),
            final(self).data@ == old(self).data@,
            match spec_bytes(old(self).data@, old(self).pos as int, n as int) {
                Some((v, q)) => r matches Ok(b) && b@ == v && final(self).pos == q,
                None => r == Err::<Vec<u8>, CursorError>(CursorError::UnexpectedEof)
                    && final(self).pos == old(self).pos,
            },
    {
        if self.data.len() - self.pos < n {
            return Err(CursorError::UnexpectedEof);
        }
        let mut out: Vec<u8> = Vec::new();
        let start = self.pos;
        let len = self.data.len();
        let mut i: usize = 0;
        while i < n
            invariant
                i <= n,
                start + n <= self.data@.len(),
                len == self.data@.len(),
                self.pos == start,
                out@ == self.data@.subrange(start as int, start + i),
            decreases n - i,
        {
            assert(start + i < self.data@.len());
            out.push(self.data[start + i]);
            i = i + 1;
            assert(out@ =~= self.data@.subrange(start as int, start + i));
        }
        self.pos = start + n;
        Ok(out)
    }
}

} // verus!

verus! {

/// The two big-endian bytes of `v`.
pub open spec fn u16_be_bytes(v: u16) -> Seq<u8> {
    seq![(v / 0x100) as u8, (v % 0x100) as u8]
}

/// The four big-endian bytes of `v`.
pub open spec fn u32_be_bytes(v: u32) -> Seq<u8> {
    seq![(v / 0x1000000) as u8, ((v / 0x10000) % 0x100) as u8, ((v / 0x100) % 0x100) as u8, (v % 0x100) as u8]
}

pub proof fn lemma_u16_be_bytes(v: u16)
    ensures
        be_u16(u16_be_bytes(v)[0], u16_be_bytes(v)[1]) == v,
        u16_be_bytes(v).len() == 2,
{
}

pub proof fn lemma_u32_be_bytes(v: u32)
    ensures
        ({
            let b = u32_be_bytes(v);
            be_u32(b[0], b[1], b[2], b[3]) == v
        }),
        u32_be_bytes(v).len() == 4,
{
}

pub proof fn lemma_i32_as_u32(v: i32)
    ensures
        (v as u32) as i32 == v,
{
    assert((v as u32) as i32 == v) by (bit_vector);
}

/// Appends the big-endian bytes of `v`.
pub fn push_u16(buf: &mut Vec<u8>, v: u16)
    ensures
        final(buf)@ == old(buf)@ + u16_be_bytes(v),
{
    buf.push((v / 0x100) as u8);
    buf.push((v % 0x100) as u8);
    assert(final(buf)@ =~= old(buf)@ + u16_be_bytes(v));
}

/// Appends the big-endian bytes of `v`.
pub fn push_u32(buf: &mut Vec<u8>, v: u32)
    ensures
        final(buf)@ == old(buf)@ + u32_be_bytes(v),
{
    buf.push((v / 0x1000000) as u8);
    buf.push(((v / 0x10000) % 0x100) as u8);
    buf.push(((v / 0x100) % 0x100) as u8);
    buf.push((v % 0x100) as u8);
    assert(final(buf)@ =~= old(buf)@ + u32_be_bytes(v));
}

/// The big-endian bytes of the value of two bytes are those bytes.
pub proof fn lemma_be_u16_bytes(a: u8, b: u8)
    ensures
        u16_be_bytes(be_u16(a, b)) == seq![a, b],
{
    let v = a as int * 0x100 + b as int;
    assert(0 <= v < 0x10000 && v / 0x100 == a as int && v % 0x100 == b as int) by (nonlinear_arith)
        requires
            v == a as int * 0x100 + b as int,
            0 <= a < 0x100,
            0 <= b < 0x100,
    ;
    assert(be_u16(a, b) as int == v);
    assert(u16_be_bytes(be_u16(a, b)) =~= seq![a, b]);
}

/// The big-endian bytes of the value of four bytes are those bytes.
pub proof fn lemma_be_u32_bytes(a: u8, b: u8, c: u8, e: u8)
    ensures
        u32_be_bytes(be_u32(a, b, c, e)) == seq![a, b, c, e],
{
    let v = a as int * 0x1000000 + b as int * 0x10000 + c as int * 0x100 + e as int;
    assert(0 <= v < 0x100000000 && v / 0x1000000 == a as int && (v / 0x10000) % 0x100 == b as int && (v / 0x100)
        % 0x100 == c as int && v % 0x100 == e as int) by (nonlinear_arith)
        requires
            v == a as int * 0x1000000 + b as int * 0x10000 + c as int * 0x100 + e as int,
            0 <= a < 0x100,
            0 <= b < 0x100,
            0 <= c < 0x100,
            0 <= e < 0x100,
    ;
    assert(be_u32(a, b, c, e) as int == v);
    assert(u32_be_bytes(be_u32(a, b, c, e)) =~= seq![a, b, c, e]);
}

/// The bytes `b` stand at `p` in `d`.
pub open spec fn bytes_at(d: Seq<u8>, p: int, b: Seq<u8>) -> bool {
    &&& 0 <= p
    &&& p + b.len() <= d.len()
    &&& d.subrange(p, p + b.len()) == b
}

/// Every byte of `b` is the byte of `d` at the same place after `p`.
pub proof fn lemma_bytes_at(d: Seq<u8>, p: int, b: Seq<u8>)
    requires
        bytes_at(d, p, b),
    ensures
        forall|k: int| 0 <= k < b.len() ==> d[p + k] == #[trigger] b[k],
{
    assert forall|k: int| 0 <= k < b.len() implies d[p + k] == #[trigger] b[k] by {
        assert(d.subrange(p, p + b.len())[k] == d[p + k]);
    }
}


/// Bytes `a + b` at `p` are `a` at `p`, then `b` right after it.
pub proof fn lemma_bytes_at_split(d: Seq<u8>, p: int, a: Seq<u8>, b: Seq<u8>)
    requires
        bytes_at(d, p, a + b),
    ensures
        bytes_at(d, p, a),
        bytes_at(d, p + a.len(), b),
{
    let whole = d.subrange(p, p + (a + b).len());
    assert(d.subrange(p, p + a.len()) =~= whole.subrange(0, a.len() as int));
    assert(whole.subrange(0, a.len() as int) =~= a);
    assert(d.subrange(p + a.len(), p + a.len() + b.len()) =~= whole.subrange(a.len() as int, (a + b).len() as int));
    assert(whole.subrange(a.len() as int, (a + b).len() as int) =~= b);
}

} // verus!
