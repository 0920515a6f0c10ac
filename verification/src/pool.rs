//! The constant pool: its entries, the 1-based lookup, and its decoder.
use vstd::prelude::*;

use crate::cursor::views;
use crate::error::DecompileError;

verus! {

/// The payload of one constant pool entry. `Float` and `Double` keep the
/// IEEE 754 bit pattern that the file holds.
#[derive(Debug, PartialEq, Eq)]
#[allow(inconsistent_fields)]
pub enum ConstantPoolType {
    ConstantClass { name_idx: u16 },
    ConstantFieldRef { class_index: u16, name_and_type_idx: u16 },
    ConstantMethodRef { class_index: u16, name_and_type_idx: u16 },
    ConstantInterfaceMethodRef { class_index: u16, name_and_type_idx: u16 },
    ConstantString { string_idx: u16 },
    ConstantInteger { value: i32 },
    ConstantFloat { bits: u32 },
    ConstantLong { value: i64 },
    ConstantDouble { bits: u64 },
    ConstantNameAndType { name_idx: u16, desc_idx: u16 },
    /// `len` is the number of bytes in the file, not of characters in
    /// `value`.
    ConstantUtf8 { len: u16, value: String },
    ConstantMethodHandle { ref_kind: u8, ref_idx: u16 },
    ConstantMethodType { desc_idx: u16 },
    ConstantDynamic { bootstrap_method_attr_index: u16, name_and_type_index: u16 },
    ConstantInvokeDynamic { bootstrap_method_attr_index: u16, name_and_type_index: u16 },
    ConstantModule { name_idx: u16 },
    ConstantPackage { name_idx: u16 },
}

/// The mathematical value of a `ConstantPoolType`.
#[allow(inconsistent_fields)]
pub enum ConstantPoolTypeView {
    ConstantClass { name_idx: u16 },
    ConstantFieldRef { class_index: u16, name_and_type_idx: u16 },
    ConstantMethodRef { class_index: u16, name_and_type_idx: u16 },
    ConstantInterfaceMethodRef { class_index: u16, name_and_type_idx: u16 },
    ConstantString { string_idx: u16 },
    ConstantInteger { value: i32 },
    ConstantFloat { bits: u32 },
    ConstantLong { value: i64 },
    ConstantDouble { bits: u64 },
    ConstantNameAndType { name_idx: u16, desc_idx: u16 },
    ConstantUtf8 { len: u16, value: Seq<char> },
    ConstantMethodHandle { ref_kind: u8, ref_idx: u16 },
    ConstantMethodType { desc_idx: u16 },
    ConstantDynamic { bootstrap_method_attr_index: u16, name_and_type_index: u16 },
    ConstantInvokeDynamic { bootstrap_method_attr_index: u16, name_and_type_index: u16 },
    ConstantModule { name_idx: u16 },
    ConstantPackage { name_idx: u16 },
}

impl View for ConstantPoolType {
    type V = ConstantPoolTypeView;

    open spec fn view(&self) -> ConstantPoolTypeView {
        match *self {
            ConstantPoolType::ConstantClass { name_idx } => ConstantPoolTypeView::ConstantClass { name_idx },
            ConstantPoolType::ConstantFieldRef {
                class_index,
                name_and_type_idx,
            } => ConstantPoolTypeView::ConstantFieldRef { class_index, name_and_type_idx },
            ConstantPoolType::ConstantMethodRef {
                class_index,
                name_and_type_idx,
            } => ConstantPoolTypeView::ConstantMethodRef { class_index, name_and_type_idx },
            ConstantPoolType::ConstantInterfaceMethodRef {
                class_index,
                name_and_type_idx,
            } => ConstantPoolTypeView::ConstantInterfaceMethodRef { class_index, name_and_type_idx },
            ConstantPoolType::ConstantString { string_idx } => ConstantPoolTypeView::ConstantString {
                string_idx,
            },
            ConstantPoolType::ConstantInteger { value } => ConstantPoolTypeView::ConstantInteger { value },
            ConstantPoolType::ConstantFloat { bits } => ConstantPoolTypeView::ConstantFloat { bits },
            ConstantPoolType::ConstantLong { value } => ConstantPoolTypeView::ConstantLong { value },
            ConstantPoolType::ConstantDouble { bits } => ConstantPoolTypeView::ConstantDouble { bits },
            ConstantPoolType::ConstantNameAndType {
                name_idx,
                desc_idx,
            } => ConstantPoolTypeView::ConstantNameAndType { name_idx, desc_idx },
            ConstantPoolType::ConstantUtf8 { len, value } => ConstantPoolTypeView::ConstantUtf8 {
                len,
                value: value@,
            },
            ConstantPoolType::ConstantMethodHandle {
                ref_kind,
                ref_idx,
            } => ConstantPoolTypeView::ConstantMethodHandle { ref_kind, ref_idx },
            ConstantPoolType::ConstantMethodType { desc_idx } => ConstantPoolTypeView::ConstantMethodType {
                desc_idx,
            },
            ConstantPoolType::ConstantDynamic {
                bootstrap_method_attr_index,
                name_and_type_index,
            } => ConstantPoolTypeView::ConstantDynamic { bootstrap_method_attr_index, name_and_type_index },
            ConstantPoolType::ConstantInvokeDynamic {
                bootstrap_method_attr_index,
                name_and_type_index,
            } => ConstantPoolTypeView::ConstantInvokeDynamic {
                bootstrap_method_attr_index,
                name_and_type_index,
            },
            ConstantPoolType::ConstantModule { name_idx } => ConstantPoolTypeView::ConstantModule { name_idx },
            ConstantPoolType::ConstantPackage { name_idx } => ConstantPoolTypeView::ConstantPackage {
                name_idx,
            },
        }
    }
}

impl ConstantPoolTypeView {
    /// `Long` and `Double` take two slots of the pool.
    pub open spec fn is_wide(self) -> bool {
        self is ConstantLong || self is ConstantDouble
    }

    /// The tag byte that introduces an entry of this kind.
    pub open spec fn tag(self) -> u8 {
        match self {
            ConstantPoolTypeView::ConstantUtf8 { .. } => 1,
            ConstantPoolTypeView::ConstantInteger { .. } => 3,
            ConstantPoolTypeView::ConstantFloat { .. } => 4,
            ConstantPoolTypeView::ConstantLong { .. } => 5,
            ConstantPoolTypeView::ConstantDouble { .. } => 6,
            ConstantPoolTypeView::ConstantClass { .. } => 7,
            ConstantPoolTypeView::ConstantString { .. } => 8,
            ConstantPoolTypeView::ConstantFieldRef { .. } => 9,
            ConstantPoolTypeView::ConstantMethodRef { .. } => 10,
            ConstantPoolTypeView::ConstantInterfaceMethodRef { .. } => 11,
            ConstantPoolTypeView::ConstantNameAndType { .. } => 12,
            ConstantPoolTypeView::ConstantMethodHandle { .. } => 15,
            ConstantPoolTypeView::ConstantMethodType { .. } => 16,
            ConstantPoolTypeView::ConstantDynamic { .. } => 17,
            ConstantPoolTypeView::ConstantInvokeDynamic { .. } => 18,
            ConstantPoolTypeView::ConstantModule { .. } => 19,
            ConstantPoolTypeView::ConstantPackage { .. } => 20,
        }
    }
}

impl ConstantPoolType {
    /// Whether the entry is a `Long` or a `Double`.
    pub fn is_wide(&self) -> (w: bool)
        ensures
            w == self@.is_wide(),
    {
        match self {
            ConstantPoolType::ConstantLong { .. } => true,
            ConstantPoolType::ConstantDouble { .. } => true,
            _ => false,
        }
    }
}

/// One slot of the pool: the tag read from the file and the payload. The
/// slot after a `Long` or `Double` is unusable; it has tag 0 and no payload.
#[derive(Debug, PartialEq, Eq)]
pub struct CpInfo {
    pub tag: u8,
    pub info: Option<ConstantPoolType>,
}

/// The mathematical value of a `CpInfo`.
pub struct CpInfoView {
    pub tag: u8,
    pub info: Option<ConstantPoolTypeView>,
}

impl View for CpInfo {
    type V = CpInfoView;

    open spec fn view(&self) -> CpInfoView {
        CpInfoView {
            tag: self.tag,
            info: match self.info {
                Some(t) => Some(t@),
                None => None,
            },
        }
    }
}

impl CpInfoView {
    /// The slot that stands for the second half of a `Long` or `Double`.
    pub open spec fn unusable() -> CpInfoView {
        CpInfoView { tag: 0, info: None }
    }

    /// Whether the slot holds a `Long` or a `Double`.
    pub open spec fn is_wide(self) -> bool {
        self.info matches Some(t) && t.is_wide()
    }

    /// Whether the tag of the slot is the tag of the kind of its entry, and
    /// 0 for a slot without one.
    pub open spec fn tagged(self) -> bool {
        match self.info {
            Some(entry) => self.tag == entry.tag(),
            None => self.tag == 0,
        }
    }
}

/// In a well-formed pool every `Long` or `Double` is followed by an
/// unusable slot.
pub open spec fn pool_wf(slots: Seq<CpInfoView>) -> bool {
    forall|i: int|
        0 <= i < slots.len() && (#[trigger] slots[i]).is_wide() ==> i + 1 < slots.len() && slots[i
            + 1].info is None
}

/// Whether every slot carries the tag of the kind of its entry.
pub open spec fn all_tagged(slots: Seq<CpInfoView>) -> bool {
    forall|i: int| 0 <= i < slots.len() ==> (#[trigger] slots[i]).tagged()
}

/// The entry at the 1-based `index`: nothing at index 0, past the last
/// slot, or on an unusable slot.
pub open spec fn spec_lookup(slots: Seq<CpInfoView>, index: int) -> Option<CpInfoView> {
    if 1 <= index <= slots.len() && slots[index - 1].info is Some {
        Some(slots[index - 1])
    } else {
        None
    }
}

/// The text of the `Utf8` entry at `index`. A lookup that finds nothing is
/// `NoSuchConstantPoolEntry` with the index and `offset`; an entry of any
/// other kind is `InvalidUtf8ConstantPoolEntry`.
pub open spec fn spec_resolve_utf8(slots: Seq<CpInfoView>, index: u16, offset: u64) -> Result<
    Seq<char>,
    DecompileError,
> {
    match spec_lookup(slots, index as int) {
        None => Err(DecompileError::NoSuchConstantPoolEntry(index, offset)),
        Some(slot) => match slot.info {
            Some(ConstantPoolTypeView::ConstantUtf8 { len, value }) => Ok(value),
            _ => Err(DecompileError::InvalidUtf8ConstantPoolEntry(index)),
        },
    }
}

/// The constant pool, addressed from 1.
#[derive(Debug, PartialEq, Eq)]
pub struct ConstantPool {
    cp_info: Vec<CpInfo>,
}

impl View for ConstantPool {
    type V = Seq<CpInfoView>;

    closed spec fn view(&self) -> Seq<CpInfoView> {
        views(self.cp_info@)
    }
}

impl ConstantPool {
    /// Every `Long` or `Double` in the pool is followed by its unusable
    /// slot.
    pub open spec fn wf(&self) -> bool {
        pool_wf(self@)
    }

    /// The empty pool.
    pub fn new() -> (pool: ConstantPool)
        ensures
            pool@ == Seq::<CpInfoView>::empty(),
            pool.wf(),
    {
        let pool = ConstantPool { cp_info: Vec::new() };
        assert(pool@ =~= Seq::<CpInfoView>::empty());
        pool
    }

    /// Appends `cp_info` at the next index; after a `Long` or `Double` the
    /// unusable slot follows at once.
    pub fn push(&mut self, cp_info: CpInfo)
        requires
            old(self).wf(),
        ensures
            final(self).wf(),
            final(self)@ == if cp_info@.is_wide() {
                old(self)@.push(cp_info@).push(CpInfoView::unusable())
            } else {
                old(self)@.push(cp_info@)
            },
    {
        let wide = match &cp_info.info {
            Some(t) => t.is_wide(),
            None => false,
        };
        let ghost before = self@;
        let ghost slot = cp_info@;
        self.cp_info.push(cp_info);
        assert(self@ =~= before.push(slot));
        if wide {
            self.cp_info.push(CpInfo { tag: 0, info: None });
            assert(self@ =~= before.push(slot).push(CpInfoView::unusable()));
        }
    }

    /// The number of slots, unusable ones included.
    pub fn len(&self) -> (n: usize)
        ensures
            n == self@.len(),
    {
        self.cp_info.len()
    }

    /// The slot at the 0-based position `i`, usable or not.
    pub fn slot(&self, i: usize) -> (r: &CpInfo)
        requires
            i < self@.len(),
        ensures
            r@ == self@[i as int],
    {
        &self.cp_info[i]
    }

    /// The entry at the 1-based index `idx`, if there is one.
    pub fn get(&self, idx: usize) -> (r: Option<&CpInfo>)
        ensures
            match spec_lookup(self@, idx as int) {
                Some(slot) => r matches Some(e) && e@ == slot,
                None => r is None,
            },
    {
        if idx == 0 || idx > self.cp_info.len() {
            return None;
        }
        let e = &self.cp_info[idx - 1];
        assert(e@ == self@[idx - 1]);
        if e.info.is_none() {
            None
        } else {
            Some(e)
        }
    }
}

/// The text of the `Utf8` entry at `index`; `offset` is where the decoder
/// stands, for the error.
pub fn resolve_utf8_cp_entry(pool: &ConstantPool, index: u16, offset: u64) -> (r: Result<
    String,
    DecompileError,
>)
    ensures
        match spec_resolve_utf8(pool@, index, offset) {
            Ok(text) => r matches Ok(s) && s@ == text,
            Err(e) => r matches Err(g) && g == e,
        },
{
    match pool.get(index as usize) {
        None => Err(DecompileError::NoSuchConstantPoolEntry(index, offset)),
        Some(e) => match &e.info {
            Some(ConstantPoolType::ConstantUtf8 { len, value }) => Ok(value.clone()),
            _ => Err(DecompileError::InvalidUtf8ConstantPoolEntry(index)),
        },
    }
}

} // verus!
