//! Tables: a count followed by that many elements of one shape.
use vstd::prelude::*;

use crate::cursor::{be16, fits, spec_u16, spec_u8, views, Cursor, Decoded};
use crate::error::DecompileError;

verus! {

/// A value with a fixed way of being decoded from bytes, independent of the
/// constant pool.
pub trait Decode: View + Sized {
    /// The value at `pos` in the window that ends at `end`, and the offset
    /// just past it.
    spec fn spec_decode(b: Seq<u8>, pos: int, end: int) -> Decoded<Self::V>;

    /// A value that decodes ends inside the window, at or after the offset
    /// at which it began.
    proof fn lemma_forward(b: Seq<u8>, pos: int, end: int)
        requires
            pos <= end,
        ensures
            Self::spec_decode(b, pos, end) matches Ok((v, p)) ==> pos <= p <= end,
    ;

    /// Whether every count inside `v` is the length of the table that it
    /// counts.
    spec fn counted(v: Self::V) -> bool;

    /// A value that decodes has counts that are the lengths of its tables.
    proof fn lemma_counted(b: Seq<u8>, pos: int, end: int)
        ensures
            Self::spec_decode(b, pos, end) matches Ok((v, p)) ==> Self::counted(v),
    ;

    /// Decodes one value where the cursor stands.
    fn decode(cur: &mut Cursor) -> (r: Result<Self, DecompileError>)
        requires
            old(cur).inv(),
        ensures
            final(cur).decoded(
                *old(cur),
                r,
                Self::spec_decode(old(cur).bytes@, old(cur).pos as int, old(cur).end as int),
            ),
            r is Ok ==> old(cur).pos <= final(cur).pos,
    ;
}

/// `n` values decoded one after another from `pos`, appended to `acc`.
pub open spec fn spec_many<T: Decode>(b: Seq<u8>, pos: int, end: int, n: nat, acc: Seq<T::V>) -> Decoded<
    Seq<T::V>,
>
    decreases n,
{
    if n == 0 {
        Ok((acc, pos))
    } else {
        match T::spec_decode(b, pos, end) {
            Ok((v, p)) => spec_many::<T>(b, p, end, (n - 1) as nat, acc.push(v)),
            Err(e) => Err(e),
        }
    }
}

/// A run of values that decodes ends inside the window, at or after the
/// offset at which it began.
pub proof fn lemma_many_forward<T: Decode>(b: Seq<u8>, pos: int, end: int, n: nat, acc: Seq<T::V>)
    requires
        pos <= end,
    ensures
        spec_many::<T>(b, pos, end, n, acc) matches Ok((v, p)) ==> pos <= p <= end,
    decreases n,
{
    if n > 0 {
        T::lemma_forward(b, pos, end);
        match T::spec_decode(b, pos, end) {
            Ok((v, p)) => lemma_many_forward::<T>(b, p, end, (n - 1) as nat, acc.push(v)),
            Err(e) => {},
        }
    }
}

/// Whether every value of `s` has counts that are the lengths of its
/// tables.
pub open spec fn all_counted<T: Decode>(s: Seq<T::V>) -> bool {
    forall|i: int| 0 <= i < s.len() ==> #[trigger] T::counted(s[i])
}

/// A run of `n` values that decodes adds `n` values to `acc`, each with
/// counts that are the lengths of its tables.
pub proof fn lemma_many_len<T: Decode>(b: Seq<u8>, pos: int, end: int, n: nat, acc: Seq<T::V>)
    ensures
        spec_many::<T>(b, pos, end, n, acc) matches Ok((v, p)) ==> v.len() == acc.len() + n && (
        all_counted::<T>(acc) ==> all_counted::<T>(v)),
    decreases n,
{
    if n > 0 {
        T::lemma_counted(b, pos, end);
        match T::spec_decode(b, pos, end) {
            Ok((v, p)) => {
                lemma_many_len::<T>(b, p, end, (n - 1) as nat, acc.push(v));
                if all_counted::<T>(acc) {
                    assert forall|i: int| 0 <= i < acc.push(v).len() implies #[trigger] T::counted(
                        acc.push(v)[i],
                    ) by {
                        if i < acc.len() {
                            assert(T::counted(acc[i]));
                        }
                    }
                }
            },
            Err(e) => {},
        }
    }
}

/// A counted table that decodes has as many values as its count says, each
/// with counts that are the lengths of its tables.
pub proof fn lemma_counted_len<T: Decode>(b: Seq<u8>, pos: int, end: int)
    ensures
        spec_counted::<T>(b, pos, end) matches Ok(((n, v), p)) ==> v.len() == n && all_counted::<T>(v),
        spec_counted8::<T>(b, pos, end) matches Ok(((n, v), p)) ==> v.len() == n && all_counted::<T>(v),
{
    if fits(pos, end, 2) {
        lemma_many_len::<T>(b, pos + 2, end, be16(b, pos) as nat, Seq::empty());
    }
    if fits(pos, end, 1) {
        lemma_many_len::<T>(b, pos + 1, end, b[pos] as nat, Seq::empty());
    }
}

/// A table of `n` values that starts at `pos`.
pub open spec fn spec_table<T: Decode>(b: Seq<u8>, pos: int, end: int, n: nat) -> Decoded<Seq<T::V>> {
    spec_many::<T>(b, pos, end, n, Seq::empty())
}

/// Decodes a table of `n` values; the first element that fails gives the
/// error.
pub fn read_table<T: Decode>(cur: &mut Cursor, n: usize) -> (r: Result<Vec<T>, DecompileError>)
    requires
        old(cur).inv(),
    ensures
        final(cur).decoded_list(
            *old(cur),
            r,
            spec_table::<T>(old(cur).bytes@, old(cur).pos as int, old(cur).end as int, n as nat),
        ),
        r is Ok ==> old(cur).pos <= final(cur).pos,
        r matches Ok(v) ==> v@.len() == n,
{
    let mut out: Vec<T> = Vec::new();
    let mut i: usize = 0;
    assert(views(out@) =~= Seq::<T::V>::empty());
    while i < n
        invariant
            i <= n,
            out@.len() == i,
            cur.same_window(*old(cur)),
            old(cur).pos <= cur.pos,
            spec_table::<T>(old(cur).bytes@, old(cur).pos as int, old(cur).end as int, n as nat)
                == spec_many::<T>(cur.bytes@, cur.pos as int, cur.end as int, (n - i) as nat, views(out@)),
        decreases n - i,
    {
        let ghost before = views(out@);
        match T::decode(cur) {
            Ok(x) => {
                out.push(x);
                assert(views(out@) =~= before.push(x@));
            },
            Err(e) => {
                return Err(e);
            },
        }
        i = i + 1;
    }
    Ok(out)
}

impl Decode for u16 {
    open spec fn spec_decode(b: Seq<u8>, pos: int, end: int) -> Decoded<u16> {
        spec_u16(b, pos, end)
    }

    proof fn lemma_forward(b: Seq<u8>, pos: int, end: int) {
    }

    open spec fn counted(v: u16) -> bool {
        true
    }

    proof fn lemma_counted(b: Seq<u8>, pos: int, end: int) {
    }

    fn decode(cur: &mut Cursor) -> (r: Result<u16, DecompileError>) {
        cur.read_u16()
    }
}

/// Decodes a table of `n` big-endian `u16` values.
pub fn read_u16_table(cur: &mut Cursor, n: usize) -> (r: Result<Vec<u16>, DecompileError>)
    requires
        old(cur).inv(),
    ensures
        final(cur).same_window(*old(cur)),
        match spec_table::<u16>(old(cur).bytes@, old(cur).pos as int, old(cur).end as int, n as nat) {
            Ok((v, p)) => r matches Ok(x) && x@ == v && final(cur).pos == p,
            Err(e) => r matches Err(g) && g == e,
        },
        r is Ok ==> old(cur).pos <= final(cur).pos,
        r matches Ok(v) ==> v@.len() == n,
{
    let r = read_table::<u16>(cur, n);
    proof {
        if r is Ok {
            assert(views(r->Ok_0@) =~= r->Ok_0@);
        }
    }
    r
}

/// A `u16` count at `pos`, then a table of that many values.
pub open spec fn spec_counted<T: Decode>(b: Seq<u8>, pos: int, end: int) -> Decoded<(u16, Seq<T::V>)> {
    match spec_u16(b, pos, end) {
        Err(e) => Err(e),
        Ok((n, p)) => match spec_table::<T>(b, p, end, n as nat) {
            Err(e) => Err(e),
            Ok((v, q)) => Ok(((n, v), q)),
        },
    }
}

/// A counted table that decodes ends inside the window, after the offset
/// at which its count began.
pub proof fn lemma_counted_forward<T: Decode>(b: Seq<u8>, pos: int, end: int)
    requires
        pos <= end,
    ensures
        spec_counted::<T>(b, pos, end) matches Ok((v, p)) ==> pos < p <= end,
        spec_counted8::<T>(b, pos, end) matches Ok((v, p)) ==> pos < p <= end,
{
    if fits(pos, end, 2) {
        lemma_many_forward::<T>(b, pos + 2, end, be16(b, pos) as nat, Seq::empty());
    }
    if fits(pos, end, 1) {
        lemma_many_forward::<T>(b, pos + 1, end, b[pos] as nat, Seq::empty());
    }
}

/// A one-byte count at `pos`, then a table of that many values.
pub open spec fn spec_counted8<T: Decode>(b: Seq<u8>, pos: int, end: int) -> Decoded<(u8, Seq<T::V>)> {
    match spec_u8(b, pos, end) {
        Err(e) => Err(e),
        Ok((n, p)) => match spec_table::<T>(b, p, end, n as nat) {
            Err(e) => Err(e),
            Ok((v, q)) => Ok(((n, v), q)),
        },
    }
}

/// Decodes a `u16` count and the table that it announces.
pub fn read_counted<T: Decode>(cur: &mut Cursor) -> (r: Result<(u16, Vec<T>), DecompileError>)
    requires
        old(cur).inv(),
    ensures
        final(cur).same_window(*old(cur)),
        match spec_counted::<T>(old(cur).bytes@, old(cur).pos as int, old(cur).end as int) {
            Ok(((n, v), p)) => r matches Ok(x) && x.0 == n && views(x.1@) == v && x.1@.len() == n
                && final(cur).pos == p,
            Err(e) => r matches Err(g) && g == e,
        },
        r is Ok ==> old(cur).pos < final(cur).pos,
{
    let n = cur.read_u16()?;
    let v = read_table::<T>(cur, n as usize)?;
    Ok((n, v))
}

/// Decodes a one-byte count and the table that it announces.
pub fn read_counted8<T: Decode>(cur: &mut Cursor) -> (r: Result<(u8, Vec<T>), DecompileError>)
    requires
        old(cur).inv(),
    ensures
        final(cur).same_window(*old(cur)),
        match spec_counted8::<T>(old(cur).bytes@, old(cur).pos as int, old(cur).end as int) {
            Ok(((n, v), p)) => r matches Ok(x) && x.0 == n && views(x.1@) == v && x.1@.len() == n
                && final(cur).pos == p,
            Err(e) => r matches Err(g) && g == e,
        },
        r is Ok ==> old(cur).pos < final(cur).pos,
{
    let n = cur.read_u8()?;
    let v = read_table::<T>(cur, n as usize)?;
    Ok((n, v))
}

/// Decodes a `u16` count and that many `u16` values.
pub fn read_counted_u16(cur: &mut Cursor) -> (r: Result<(u16, Vec<u16>), DecompileError>)
    requires
        old(cur).inv(),
    ensures
        final(cur).same_window(*old(cur)),
        match spec_counted::<u16>(old(cur).bytes@, old(cur).pos as int, old(cur).end as int) {
            Ok(((n, v), p)) => r matches Ok(x) && x.0 == n && x.1@ == v && x.1@.len() == n
                && final(cur).pos == p,
            Err(e) => r matches Err(g) && g == e,
        },
        r is Ok ==> old(cur).pos < final(cur).pos,
{
    let n = cur.read_u16()?;
    let v = read_u16_table(cur, n as usize)?;
    Ok((n, v))
}

} // verus!
