//! The byte cursor: big-endian reads over a window of a byte slice.
use vstd::prelude::*;

use crate::error::DecompileError;

verus! {

/// The outcome of decoding at an offset: the value and the offset just past
/// it, or the error at which decoding stops.
pub type Decoded<T> = Result<(T, int), DecompileError>;

/// The big-endian `u16` held in `b[at]` and `b[at + 1]`.
pub open spec fn be16(b: Seq<u8>, at: int) -> u16 {
    (b[at] as int * 0x100 + b[at + 1] as int) as u16
}

/// The big-endian `u32` held in the four bytes from `b[at]`.
pub open spec fn be32(b: Seq<u8>, at: int) -> u32 {
    (b[at] as int * 0x100_0000 + b[at + 1] as int * 0x1_0000 + b[at + 2] as int * 0x100
        + b[at + 3] as int) as u32
}

/// The big-endian `u64` held in the eight bytes from `b[at]`.
pub open spec fn be64(b: Seq<u8>, at: int) -> u64 {
    (be32(b, at) as int * 0x1_0000_0000 + be32(b, at + 4) as int) as u64
}

/// The two's-complement reading of 32 bits.
pub open spec fn signed32(u: u32) -> i32 {
    if u < 0x8000_0000 {
        u as i32
    } else {
        (u as int - 0x1_0000_0000) as i32
    }
}

/// The two's-complement reading of 64 bits.
pub open spec fn signed64(u: u64) -> i64 {
    if u < 0x8000_0000_0000_0000 {
        u as i64
    } else {
        (u as int - 0x1_0000_0000_0000_0000) as i64
    }
}

/// Reads 32 bits as a two's-complement number.
pub fn to_signed32(u: u32) -> (v: i32)
    ensures
        v == signed32(u),
{
    if u < 0x8000_0000 {
        u as i32
    } else {
        ((u - 0x8000_0000) as i32) + i32::MIN
    }
}

/// Reads 64 bits as a two's-complement number.
pub fn to_signed64(u: u64) -> (v: i64)
    ensures
        v == signed64(u),
{
    if u < 0x8000_0000_0000_0000 {
        u as i64
    } else {
        ((u - 0x8000_0000_0000_0000) as i64) + i64::MIN
    }
}

/// The error of a read that starts at `pos` and finds too few bytes.
pub open spec fn eof(pos: int) -> DecompileError {
    DecompileError::UnexpectedEof(pos as u64)
}

/// Whether `n` bytes lie between `pos` and `end`.
pub open spec fn fits(pos: int, end: int, n: int) -> bool {
    pos + n <= end
}

/// One byte at `pos`, or `UnexpectedEof` when the window ends there.
pub open spec fn spec_u8(b: Seq<u8>, pos: int, end: int) -> Decoded<u8> {
    if fits(pos, end, 1) {
        Ok((b[pos], pos + 1))
    } else {
        Err(eof(pos))
    }
}

/// A big-endian `u16` at `pos`, or `UnexpectedEof`.
pub open spec fn spec_u16(b: Seq<u8>, pos: int, end: int) -> Decoded<u16> {
    if fits(pos, end, 2) {
        Ok((be16(b, pos), pos + 2))
    } else {
        Err(eof(pos))
    }
}

/// A big-endian `u32` at `pos`, or `UnexpectedEof`.
pub open spec fn spec_u32(b: Seq<u8>, pos: int, end: int) -> Decoded<u32> {
    if fits(pos, end, 4) {
        Ok((be32(b, pos), pos + 4))
    } else {
        Err(eof(pos))
    }
}

/// A big-endian `u64` at `pos`, or `UnexpectedEof`.
pub open spec fn spec_u64(b: Seq<u8>, pos: int, end: int) -> Decoded<u64> {
    if fits(pos, end, 8) {
        Ok((be64(b, pos), pos + 8))
    } else {
        Err(eof(pos))
    }
}

/// The `n` bytes from `pos`, or `UnexpectedEof` when fewer remain.
pub open spec fn spec_fixed(b: Seq<u8>, pos: int, end: int, n: nat) -> Decoded<Seq<u8>> {
    if fits(pos, end, n as int) {
        Ok((b.subrange(pos, pos + n), pos + n))
    } else {
        Err(eof(pos))
    }
}

/// The views of the elements of `s`, in order.
pub open spec fn views<T: View>(s: Seq<T>) -> Seq<T::V> {
    Seq::new(s.len(), |i: int| s[i]@)
}

/// A sequential reader over `bytes[pos..end]`. It only moves forward, and a
/// read either yields all the bytes asked for or fails and moves nothing.
pub struct Cursor<'a> {
    /// The whole input; offsets count from its first byte.
    pub bytes: &'a [u8],
    /// The offset of the next byte to read.
    pub pos: usize,
    /// The offset at which the window ends.
    pub end: usize,
}

impl<'a> Cursor<'a> {
    /// The cursor lies inside its window, and the window inside the input.
    pub open spec fn inv(&self) -> bool {
        self.pos <= self.end <= self.bytes@.len()
    }

    /// `self` is `before` moved to offset `pos`, with input and window kept.
    pub open spec fn moved(&self, before: Cursor<'a>, pos: int) -> bool {
        &&& self.bytes == before.bytes
        &&& self.end == before.end
        &&& self.pos == pos
        &&& self.inv()
    }

    /// A read gave `got` and left the cursor as `self`, and the outcome
    /// owed was `want`: on success `got` is the value of `want` and `self`
    /// stands at its offset; on failure `got` is the error of `want` and
    /// `self` has not moved.
    pub open spec fn read<T>(
        &self,
        before: Cursor<'a>,
        got: Result<T, DecompileError>,
        want: Decoded<T>,
    ) -> bool {
        match want {
            Ok((v, p)) => got == Ok::<T, DecompileError>(v) && self.moved(before, p),
            Err(e) => got == Err::<T, DecompileError>(e) && self.moved(before, before.pos as int),
        }
    }

    /// `self` reads the same input and window as `before`.
    pub open spec fn same_window(&self, before: Cursor<'a>) -> bool {
        &&& self.bytes == before.bytes
        &&& self.end == before.end
        &&& self.inv()
    }

    /// A decoder gave `got` and left the cursor as `self`, and the outcome
    /// owed was `want`: on success the view of `got` is the value of `want`
    /// and `self` stands at its offset; on failure `got` is the error of
    /// `want`, and where `self` stands is left open.
    pub open spec fn decoded<T: View>(
        &self,
        before: Cursor<'a>,
        got: Result<T, DecompileError>,
        want: Decoded<T::V>,
    ) -> bool {
        &&& self.same_window(before)
        &&& match want {
            Ok((v, p)) => got matches Ok(x) && x@ == v && self.pos == p,
            Err(e) => got matches Err(g) && g == e,
        }
    }

    /// As `decoded`, for a table: the views of the elements of `got` are
    /// the sequence of `want`.
    pub open spec fn decoded_list<T: View>(
        &self,
        before: Cursor<'a>,
        got: Result<Vec<T>, DecompileError>,
        want: Decoded<Seq<T::V>>,
    ) -> bool {
        &&& self.same_window(before)
        &&& match want {
            Ok((v, p)) => got matches Ok(x) && views(x@) == v && self.pos == p,
            Err(e) => got matches Err(g) && g == e,
        }
    }

    /// A cursor over the whole of `bytes`, at offset 0.
    pub fn new(bytes: &'a [u8]) -> (cur: Cursor<'a>)
        ensures
            cur.inv(),
            cur.bytes == bytes,
            cur.pos == 0,
            cur.end == bytes@.len(),
    {
        Cursor { bytes, pos: 0, end: bytes.len() }
    }

    /// The offset of the next byte, counted from the start of the input.
    pub fn position(&self) -> (at: u64)
        ensures
            at == self.pos,
    {
        self.pos as u64
    }

    /// The number of bytes left in the window.
    pub fn remaining(&self) -> (n: usize)
        requires
            self.inv(),
        ensures
            n == self.end - self.pos,
    {
        self.end - self.pos
    }

    /// The error of a read that fails where the cursor stands.
    pub fn eof_here(&self) -> (e: DecompileError)
        ensures
            e == eof(self.pos as int),
    {
        DecompileError::UnexpectedEof(self.pos as u64)
    }

    /// Checks that `n` more bytes lie in the window, without moving.
    pub fn need(&self, n: usize) -> (r: Result<(), DecompileError>)
        requires
            self.inv(),
        ensures
            fits(self.pos as int, self.end as int, n as int) ==> r is Ok,
            !fits(self.pos as int, self.end as int, n as int) ==> r == Err::<(), DecompileError>(
                eof(self.pos as int),
            ),
    {
        if self.end - self.pos < n {
            Err(self.eof_here())
        } else {
            Ok(())
        }
    }

    /// The next byte, taken without a check.
    pub(crate) fn take_u8(&mut self) -> (v: u8)
        requires
            old(self).inv(),
            fits(old(self).pos as int, old(self).end as int, 1),
        ensures
            v == old(self).bytes@[old(self).pos as int],
            final(self).moved(*old(self), old(self).pos + 1),
    {
        let v = self.bytes[self.pos];
        self.pos = self.pos + 1;
        v
    }

    /// The next big-endian `u16`, taken without a check.
    pub(crate) fn take_u16(&mut self) -> (v: u16)
        requires
            old(self).inv(),
            fits(old(self).pos as int, old(self).end as int, 2),
        ensures
            v == be16(old(self).bytes@, old(self).pos as int),
            final(self).moved(*old(self), old(self).pos + 2),
    {
        let hi = self.bytes[self.pos] as u16;
        let lo = self.bytes[self.pos + 1] as u16;
        self.pos = self.pos + 2;
        hi * 0x100 + lo
    }

    /// The next big-endian `u32`, taken without a check.
    pub(crate) fn take_u32(&mut self) -> (v: u32)
        requires
            old(self).inv(),
            fits(old(self).pos as int, old(self).end as int, 4),
        ensures
            v == be32(old(self).bytes@, old(self).pos as int),
            final(self).moved(*old(self), old(self).pos + 4),
    {
        let b0 = self.bytes[self.pos] as u32;
        let b1 = self.bytes[self.pos + 1] as u32;
        let b2 = self.bytes[self.pos + 2] as u32;
        let b3 = self.bytes[self.pos + 3] as u32;
        self.pos = self.pos + 4;
        b0 * 0x100_0000 + b1 * 0x1_0000 + b2 * 0x100 + b3
    }

    /// The next big-endian `u64`, taken without a check.
    pub(crate) fn take_u64(&mut self) -> (v: u64)
        requires
            old(self).inv(),
            fits(old(self).pos as int, old(self).end as int, 8),
        ensures
            v == be64(old(self).bytes@, old(self).pos as int),
            final(self).moved(*old(self), old(self).pos + 8),
    {
        let hi = self.take_u32() as u64;
        let lo = self.take_u32() as u64;
        hi * 0x1_0000_0000 + lo
    }

    /// Reads one byte.
    pub fn read_u8(&mut self) -> (r: Result<u8, DecompileError>)
        requires
            old(self).inv(),
        ensures
            final(self).read(
                *old(self),
                r,
                spec_u8(old(self).bytes@, old(self).pos as int, old(self).end as int),
            ),
    {
        if self.end - self.pos < 1 {
            return Err(self.eof_here());
        }
        Ok(self.take_u8())
    }

    /// Reads a big-endian `u16`.
    pub fn read_u16(&mut self) -> (r: Result<u16, DecompileError>)
        requires
            old(self).inv(),
        ensures
            final(self).read(
                *old(self),
                r,
                spec_u16(old(self).bytes@, old(self).pos as int, old(self).end as int),
            ),
    {
        if self.end - self.pos < 2 {
            return Err(self.eof_here());
        }
        Ok(self.take_u16())
    }

    /// Reads a big-endian `u32`.
    pub fn read_u32(&mut self) -> (r: Result<u32, DecompileError>)
        requires
            old(self).inv(),
        ensures
            final(self).read(
                *old(self),
                r,
                spec_u32(old(self).bytes@, old(self).pos as int, old(self).end as int),
            ),
    {
        if self.end - self.pos < 4 {
            return Err(self.eof_here());
        }
        Ok(self.take_u32())
    }

    /// Reads a big-endian `u64`.
    pub fn read_u64(&mut self) -> (r: Result<u64, DecompileError>)
        requires
            old(self).inv(),
        ensures
            final(self).read(
                *old(self),
                r,
                spec_u64(old(self).bytes@, old(self).pos as int, old(self).end as int),
            ),
    {
        if self.end - self.pos < 8 {
            return Err(self.eof_here());
        }
        Ok(self.take_u64())
    }

    /// Reads the next `n` bytes into a vector of their own.
    pub fn read_fixed(&mut self, n: usize) -> (r: Result<Vec<u8>, DecompileError>)
        requires
            old(self).inv(),
        ensures
            match spec_fixed(old(self).bytes@, old(self).pos as int, old(self).end as int, n as nat) {
                Ok((v, p)) => r matches Ok(out) && out@ == v && final(self).moved(*old(self), p),
                Err(e) => r == Err::<Vec<u8>, DecompileError>(e) && final(self).moved(
                    *old(self),
                    old(self).pos as int,
                ),
            },
    {
        if self.end - self.pos < n {
            return Err(self.eof_here());
        }
        let mut out: Vec<u8> = Vec::new();
        let start: usize = self.pos;
        let mut i: usize = 0;
        while i < n
            invariant
                i <= n,
                start + n <= self.end,
                self.moved(*old(self), start + i),
                start == old(self).pos,
                out@ == self.bytes@.subrange(start as int, start + i),
            decreases n - i,
        {
            let v = self.take_u8();
            out.push(v);
            assert(out@ =~= self.bytes@.subrange(start as int, start + i + 1));
            i = i + 1;
        }
        Ok(out)
    }

    /// Fills `buf` from the next `buf.len()` bytes; on failure `buf` is
    /// left as it was.
    pub fn read_exact_into(&mut self, buf: &mut Vec<u8>) -> (r: Result<(), DecompileError>)
        requires
            old(self).inv(),
        ensures
            final(buf)@.len() == old(buf)@.len(),
            match spec_fixed(
                old(self).bytes@,
                old(self).pos as int,
                old(self).end as int,
                old(buf)@.len(),
            ) {
                Ok((v, p)) => r is Ok && final(buf)@ == v && final(self).moved(*old(self), p),
                Err(e) => r == Err::<(), DecompileError>(e) && final(buf)@ == old(buf)@
                    && final(self).moved(*old(self), old(self).pos as int),
            },
    {
        let n: usize = buf.len();
        if self.end - self.pos < n {
            return Err(self.eof_here());
        }
        let start: usize = self.pos;
        let mut i: usize = 0;
        while i < n
            invariant
                i <= n,
                n == buf@.len(),
                start + n <= self.end,
                self.moved(*old(self), start + i),
                start == old(self).pos,
                buf@.subrange(0, i as int) == self.bytes@.subrange(start as int, start + i),
            decreases n - i,
        {
            let ghost prev = buf@;
            let v = self.take_u8();
            buf.set(i, v);
            assert forall|k: int| 0 <= k < i + 1 implies buf@[k] == self.bytes@[start + k] by {
                if k < i {
                    assert(prev.subrange(0, i as int)[k] == self.bytes@.subrange(
                        start as int,
                        start + i,
                    )[k]);
                }
            }
            assert(buf@.subrange(0, i + 1) =~= self.bytes@.subrange(start as int, start + i + 1));
            i = i + 1;
        }
        assert(buf@ =~= buf@.subrange(0, n as int));
        Ok(())
    }

    /// Splits off the next `n` bytes as a window of their own and moves past
    /// them.
    pub fn window(&mut self, n: usize) -> (r: Result<Cursor<'a>, DecompileError>)
        requires
            old(self).inv(),
        ensures
            if fits(old(self).pos as int, old(self).end as int, n as int) {
                &&& r matches Ok(w)
                &&& w.inv()
                &&& w.bytes == old(self).bytes
                &&& w.pos == old(self).pos
                &&& w.end == old(self).pos + n
                &&& final(self).moved(*old(self), old(self).pos + n)
            } else {
                &&& r matches Err(e)
                &&& e == eof(old(self).pos as int)
                &&& final(self).moved(*old(self), old(self).pos as int)
            },
    {
        if self.end - self.pos < n {
            return Err(self.eof_here());
        }
        let w = Cursor { bytes: self.bytes, pos: self.pos, end: self.pos + n };
        self.pos = self.pos + n;
        Ok(w)
    }
}

} // verus!
