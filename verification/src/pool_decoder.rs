//! Decoding the constant pool: one tag byte per entry, then the payload
//! that the tag announces.
use vstd::prelude::*;
use vstd::utf8::{decode_utf8, valid_utf8};

use crate::cursor::{
    be16, be32, be64, eof, fits, signed32, signed64, spec_fixed, spec_u16, spec_u8, to_signed32,
    to_signed64, Cursor, Decoded,
};
use crate::error::DecompileError;
use crate::pool::{
    all_tagged, pool_wf, ConstantPool, ConstantPoolType, ConstantPoolTypeView, CpInfo, CpInfoView,
};

verus! {

/// The number of payload bytes after a tag whose payload has a fixed size;
/// `None` for `Utf8` and for a tag that names no kind of entry.
pub open spec fn payload_size(tag: u8) -> Option<int> {
    if tag == 3 || tag == 4 || tag == 9 || tag == 10 || tag == 11 || tag == 12 || tag == 17 || tag
        == 18 {
        Some(4)
    } else if tag == 5 || tag == 6 {
        Some(8)
    } else if tag == 7 || tag == 8 || tag == 16 || tag == 19 || tag == 20 {
        Some(2)
    } else if tag == 15 {
        Some(3)
    } else {
        None
    }
}

/// The entry that a tag with a fixed-size payload and the payload bytes
/// from `at` stand for.
pub open spec fn fixed_entry(b: Seq<u8>, at: int, tag: u8) -> ConstantPoolTypeView
    recommends
        payload_size(tag) is Some,
{
    if tag == 3 {
        ConstantPoolTypeView::ConstantInteger { value: signed32(be32(b, at)) }
    } else if tag == 4 {
        ConstantPoolTypeView::ConstantFloat { bits: be32(b, at) }
    } else if tag == 5 {
        ConstantPoolTypeView::ConstantLong { value: signed64(be64(b, at)) }
    } else if tag == 6 {
        ConstantPoolTypeView::ConstantDouble { bits: be64(b, at) }
    } else if tag == 7 {
        ConstantPoolTypeView::ConstantClass { name_idx: be16(b, at) }
    } else if tag == 8 {
        ConstantPoolTypeView::ConstantString { string_idx: be16(b, at) }
    } else if tag == 9 {
        ConstantPoolTypeView::ConstantFieldRef {
            class_index: be16(b, at),
            name_and_type_idx: be16(b, at + 2),
        }
    } else if tag == 10 {
        ConstantPoolTypeView::ConstantMethodRef {
            class_index: be16(b, at),
            name_and_type_idx: be16(b, at + 2),
        }
    } else if tag == 11 {
        ConstantPoolTypeView::ConstantInterfaceMethodRef {
            class_index: be16(b, at),
            name_and_type_idx: be16(b, at + 2),
        }
    } else if tag == 12 {
        ConstantPoolTypeView::ConstantNameAndType { name_idx: be16(b, at), desc_idx: be16(b, at + 2) }
    } else if tag == 15 {
        ConstantPoolTypeView::ConstantMethodHandle { ref_kind: b[at], ref_idx: be16(b, at + 1) }
    } else if tag == 16 {
        ConstantPoolTypeView::ConstantMethodType { desc_idx: be16(b, at) }
    } else if tag == 17 {
        ConstantPoolTypeView::ConstantDynamic {
            bootstrap_method_attr_index: be16(b, at),
            name_and_type_index: be16(b, at + 2),
        }
    } else if tag == 18 {
        ConstantPoolTypeView::ConstantInvokeDynamic {
            bootstrap_method_attr_index: be16(b, at),
            name_and_type_index: be16(b, at + 2),
        }
    } else if tag == 19 {
        ConstantPoolTypeView::ConstantModule { name_idx: be16(b, at) }
    } else {
        ConstantPoolTypeView::ConstantPackage { name_idx: be16(b, at) }
    }
}

/// A `Utf8` payload at `pos`: a `u16` byte length, then that many bytes,
/// which must be valid UTF-8; `index` is the pool index being filled. The
/// bytes are read as standard UTF-8. The class file format also allows the
/// null character in two bytes and a character beyond the basic plane as
/// two surrogates of three bytes each; these forms are not standard UTF-8
/// and are rejected.
pub open spec fn spec_utf8(b: Seq<u8>, pos: int, end: int, index: u16) -> Decoded<ConstantPoolTypeView> {
    match spec_u16(b, pos, end) {
        Err(e) => Err(e),
        Ok((len, p)) => match spec_fixed(b, p, end, len as nat) {
            Err(e) => Err(e),
            Ok((raw, q)) => if valid_utf8(raw) {
                Ok((ConstantPoolTypeView::ConstantUtf8 { len, value: decode_utf8(raw) }, q))
            } else {
                Err(DecompileError::InvalidUtf8ConstantPoolEntry(index))
            },
        },
    }
}

/// The pool entry at `pos`: a tag byte, then its payload. A tag that names
/// no kind is `InvalidConstantPoolTag` with the offset of the tag byte.
pub open spec fn spec_entry(b: Seq<u8>, pos: int, end: int, index: u16) -> Decoded<CpInfoView> {
    match spec_u8(b, pos, end) {
        Err(e) => Err(e),
        Ok((tag, p)) => if tag == 1 {
            match spec_utf8(b, p, end, index) {
                Err(e) => Err(e),
                Ok((entry, q)) => Ok((CpInfoView { tag, info: Some(entry) }, q)),
            }
        } else {
            match payload_size(tag) {
                None => Err(DecompileError::InvalidConstantPoolTag(tag, pos as u64)),
                Some(n) => if fits(p, end, n) {
                    Ok((CpInfoView { tag, info: Some(fixed_entry(b, p, tag)) }, p + n))
                } else {
                    Err(eof(p))
                },
            }
        },
    }
}

/// The slots of a pool declared with `count`, decoded from `pos` after the
/// slots in `acc`. Indices run from 1 to `count - 1`; a `Long` or `Double`
/// fills its own slot and makes the next one unusable, and that next index
/// must still lie in the pool.
pub open spec fn spec_pool_from(b: Seq<u8>, pos: int, end: int, count: u16, acc: Seq<CpInfoView>) -> Decoded<
    Seq<CpInfoView>,
>
    decreases count - acc.len(),
{
    let index = acc.len() + 1;
    if index >= count {
        Ok((acc, pos))
    } else {
        match spec_entry(b, pos, end, index as u16) {
            Err(e) => Err(e),
            Ok((slot, p)) => if slot.is_wide() {
                if index + 1 >= count {
                    Err(DecompileError::NoSuchConstantPoolEntry((index + 1) as u16, pos as u64))
                } else {
                    spec_pool_from(b, p, end, count, acc.push(slot).push(CpInfoView::unusable()))
                }
            } else {
                spec_pool_from(b, p, end, count, acc.push(slot))
            },
        }
    }
}

/// The pool of a file that declares `count`, starting at `pos`.
pub open spec fn spec_pool(b: Seq<u8>, pos: int, end: int, count: u16) -> Decoded<Seq<CpInfoView>> {
    spec_pool_from(b, pos, end, count, Seq::empty())
}

/// Calls `String::from_utf8` of the standard library. The contract is
/// taken from its documentation and is not proved here: the call gives
/// text exactly when `bytes` are valid UTF-8, and then the text is the one
/// that `bytes` encode.
#[verifier::external_body]
fn text_of_utf8(bytes: Vec<u8>) -> (r: Option<String>)
    ensures
        r is Some <==> valid_utf8(bytes@),
        r matches Some(s) ==> s@ == decode_utf8(bytes@),
{
    match String::from_utf8(bytes) {
        Ok(s) => Some(s),
        Err(_) => None,
    }
}

/// Decodes the payload of a `Utf8` entry for pool index `index`.
pub fn cp_utf8(cur: &mut Cursor, index: u16) -> (r: Result<ConstantPoolType, DecompileError>)
    requires
        old(cur).inv(),
    ensures
        final(cur).decoded(
            *old(cur),
            r,
            spec_utf8(old(cur).bytes@, old(cur).pos as int, old(cur).end as int, index),
        ),
{
    let len = cur.read_u16()?;
    let raw = cur.read_fixed(len as usize)?;
    match text_of_utf8(raw) {
        Some(value) => Ok(ConstantPoolType::ConstantUtf8 { len, value }),
        None => Err(DecompileError::InvalidUtf8ConstantPoolEntry(index)),
    }
}

/// Decodes the payload of an `Integer` entry.
pub fn cp_integer(cur: &mut Cursor) -> (r: Result<ConstantPoolType, DecompileError>)
    requires
        old(cur).inv(),
    ensures
        final(cur).decoded(
            *old(cur),
            r,
            if fits(old(cur).pos as int, old(cur).end as int, 4) {
                Ok((fixed_entry(old(cur).bytes@, old(cur).pos as int, 3), old(cur).pos + 4))
            } else {
                Err(eof(old(cur).pos as int))
            },
        ),
{
    let bits = cur.read_u32()?;
    Ok(ConstantPoolType::ConstantInteger { value: to_signed32(bits) })
}

/// Decodes the payload of a `Float` entry, keeping its bit pattern.
pub fn cp_float(cur: &mut Cursor) -> (r: Result<ConstantPoolType, DecompileError>)
    requires
        old(cur).inv(),
    ensures
        final(cur).decoded(
            *old(cur),
            r,
            if fits(old(cur).pos as int, old(cur).end as int, 4) {
                Ok((fixed_entry(old(cur).bytes@, old(cur).pos as int, 4), old(cur).pos + 4))
            } else {
                Err(eof(old(cur).pos as int))
            },
        ),
{
    let bits = cur.read_u32()?;
    Ok(ConstantPoolType::ConstantFloat { bits })
}

/// Decodes the payload of a `Long` entry.
pub fn cp_long(cur: &mut Cursor) -> (r: Result<ConstantPoolType, DecompileError>)
    requires
        old(cur).inv(),
    ensures
        final(cur).decoded(
            *old(cur),
            r,
            if fits(old(cur).pos as int, old(cur).end as int, 8) {
                Ok((fixed_entry(old(cur).bytes@, old(cur).pos as int, 5), old(cur).pos + 8))
            } else {
                Err(eof(old(cur).pos as int))
            },
        ),
{
    let bits = cur.read_u64()?;
    Ok(ConstantPoolType::ConstantLong { value: to_signed64(bits) })
}

/// Decodes the payload of a `Double` entry, keeping its bit pattern.
pub fn cp_double(cur: &mut Cursor) -> (r: Result<ConstantPoolType, DecompileError>)
    requires
        old(cur).inv(),
    ensures
        final(cur).decoded(
            *old(cur),
            r,
            if fits(old(cur).pos as int, old(cur).end as int, 8) {
                Ok((fixed_entry(old(cur).bytes@, old(cur).pos as int, 6), old(cur).pos + 8))
            } else {
                Err(eof(old(cur).pos as int))
            },
        ),
{
    let bits = cur.read_u64()?;
    Ok(ConstantPoolType::ConstantDouble { bits })
}

/// Decodes one pool entry, tag and payload, for pool index `index`.
pub fn read_cp_info(cur: &mut Cursor, index: u16) -> (r: Result<CpInfo, DecompileError>)
    requires
        old(cur).inv(),
    ensures
        final(cur).decoded(
            *old(cur),
            r,
            spec_entry(old(cur).bytes@, old(cur).pos as int, old(cur).end as int, index),
        ),
        r is Ok ==> old(cur).pos < final(cur).pos,
{
    let pos = cur.position();
    let tag = cur.read_u8()?;
    let info = match tag {
        1 => cp_utf8(cur, index)?,
        3 => cp_integer(cur)?,
        4 => cp_float(cur)?,
        5 => cp_long(cur)?,
        6 => cp_double(cur)?,
        7 => {
            cur.need(2)?;
            ConstantPoolType::ConstantClass { name_idx: cur.take_u16() }
        },
        8 => {
            cur.need(2)?;
            ConstantPoolType::ConstantString { string_idx: cur.take_u16() }
        },
        9 => {
            cur.need(4)?;
            let class_index = cur.take_u16();
            ConstantPoolType::ConstantFieldRef { class_index, name_and_type_idx: cur.take_u16() }
        },
        10 => {
            cur.need(4)?;
            let class_index = cur.take_u16();
            ConstantPoolType::ConstantMethodRef { class_index, name_and_type_idx: cur.take_u16() }
        },
        11 => {
            cur.need(4)?;
            let class_index = cur.take_u16();
            ConstantPoolType::ConstantInterfaceMethodRef {
                class_index,
                name_and_type_idx: cur.take_u16(),
            }
        },
        12 => {
            cur.need(4)?;
            let name_idx = cur.take_u16();
            ConstantPoolType::ConstantNameAndType { name_idx, desc_idx: cur.take_u16() }
        },
        15 => {
            cur.need(3)?;
            let ref_kind = cur.take_u8();
            ConstantPoolType::ConstantMethodHandle { ref_kind, ref_idx: cur.take_u16() }
        },
        16 => {
            cur.need(2)?;
            ConstantPoolType::ConstantMethodType { desc_idx: cur.take_u16() }
        },
        17 => {
            cur.need(4)?;
            let bootstrap_method_attr_index = cur.take_u16();
            ConstantPoolType::ConstantDynamic {
                bootstrap_method_attr_index,
                name_and_type_index: cur.take_u16(),
            }
        },
        18 => {
            cur.need(4)?;
            let bootstrap_method_attr_index = cur.take_u16();
            ConstantPoolType::ConstantInvokeDynamic {
                bootstrap_method_attr_index,
                name_and_type_index: cur.take_u16(),
            }
        },
        19 => {
            cur.need(2)?;
            ConstantPoolType::ConstantModule { name_idx: cur.take_u16() }
        },
        20 => {
            cur.need(2)?;
            ConstantPoolType::ConstantPackage { name_idx: cur.take_u16() }
        },
        _ => {
            return Err(DecompileError::InvalidConstantPoolTag(tag, pos));
        },
    };
    Ok(CpInfo { tag, info: Some(info) })
}

/// Decodes the pool of a file that declares `count`: the entries for the
/// indices 1 to `count - 1`, in file order.
pub fn read_constant_pool(cur: &mut Cursor, count: u16) -> (r: Result<ConstantPool, DecompileError>)
    requires
        old(cur).inv(),
    ensures
        final(cur).decoded(
            *old(cur),
            r,
            spec_pool(old(cur).bytes@, old(cur).pos as int, old(cur).end as int, count),
        ),
        r matches Ok(pool) ==> pool.wf(),
{
    let mut pool = ConstantPool::new();
    while pool.len() + 1 < count as usize
        invariant
            pool.wf(),
            pool@.len() <= count,
            cur.same_window(*old(cur)),
            spec_pool(old(cur).bytes@, old(cur).pos as int, old(cur).end as int, count)
                == spec_pool_from(cur.bytes@, cur.pos as int, cur.end as int, count, pool@),
        decreases count - pool@.len(),
    {
        let index: u16 = (pool.len() + 1) as u16;
        let pos = cur.position();
        let slot = read_cp_info(cur, index)?;
        let wide = match &slot.info {
            Some(t) => t.is_wide(),
            None => false,
        };
        if wide && index + 1 >= count {
            return Err(DecompileError::NoSuchConstantPoolEntry(index + 1, pos));
        }
        pool.push(slot);
    }
    Ok(pool)
}

/// The number of slots in the pool of a file that declares `count`: one
/// fewer, and none for a count of 0.
pub open spec fn slots_for(count: u16) -> nat {
    if count == 0 {
        0
    } else {
        (count - 1) as nat
    }
}

/// Decoding a pool keeps it well formed, fills it up to the declared
/// count, and ends inside the window, at or after the offset at which it
/// began.
pub proof fn lemma_pool_from(b: Seq<u8>, pos: int, end: int, count: u16, acc: Seq<CpInfoView>)
    requires
        pool_wf(acc),
        all_tagged(acc),
        pos <= end,
    ensures
        spec_pool_from(b, pos, end, count, acc) matches Ok((slots, p)) ==> {
            &&& pool_wf(slots)
            &&& all_tagged(slots)
            &&& slots.len() == if acc.len() + 1 >= count {
                acc.len()
            } else {
                slots_for(count)
            }
            &&& pos <= p <= end
        },
    decreases count - acc.len(),
{
    let index = acc.len() + 1;
    if index < count {
        match spec_entry(b, pos, end, index as u16) {
            Err(e) => {},
            Ok((slot, p)) => {
                if slot.is_wide() {
                    if index + 1 < count {
                        let next = acc.push(slot).push(CpInfoView::unusable());
                        assert forall|i: int| 0 <= i < next.len() && (#[trigger] next[i]).is_wide() implies i
                            + 1 < next.len() && next[i + 1].info is None by {
                            if i < acc.len() {
                                assert(acc[i].is_wide());
                            }
                        }
                        assert forall|i: int| 0 <= i < next.len() implies (#[trigger] next[i]).tagged() by {
                            if i < acc.len() {
                                assert(acc[i].tagged());
                            }
                        }
                        lemma_pool_from(b, p, end, count, next);
                    }
                } else {
                    let next = acc.push(slot);
                    assert forall|i: int| 0 <= i < next.len() && (#[trigger] next[i]).is_wide() implies i
                        + 1 < next.len() && next[i + 1].info is None by {
                        if i < acc.len() {
                            assert(acc[i].is_wide());
                        }
                    }
                    assert forall|i: int| 0 <= i < next.len() implies (#[trigger] next[i]).tagged() by {
                        if i < acc.len() {
                            assert(acc[i].tagged());
                        }
                    }
                    lemma_pool_from(b, p, end, count, next);
                }
            },
        }
    }
}

/// A pool that decodes is well formed, has one slot for each index from 1
/// to `count - 1`, each with the tag of its kind, and ends inside the
/// window.
pub proof fn lemma_pool(b: Seq<u8>, pos: int, end: int, count: u16)
    requires
        pos <= end,
    ensures
        spec_pool(b, pos, end, count) matches Ok((slots, p)) ==> pool_wf(slots) && all_tagged(slots)
            && slots.len() == slots_for(count) && pos <= p <= end,
{
    lemma_pool_from(b, pos, end, count, Seq::empty());
}

} // verus!
