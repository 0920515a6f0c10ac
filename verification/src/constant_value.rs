//! The constant that a `ConstantValue` attribute gives to a field.
use vstd::prelude::*;

use crate::error::DecompileError;
use crate::pool::{
    resolve_utf8_cp_entry, spec_lookup, spec_resolve_utf8, ConstantPool, ConstantPoolType,
    ConstantPoolTypeView, CpInfoView,
};

verus! {

/// The initial value of a field. `Float` and `Double` keep the IEEE 754 bit
/// pattern; `Text` is the text of a `String` constant.
#[derive(Debug, PartialEq, Eq)]
pub enum FieldValue {
    Integer(i32),
    Float(u32),
    Long(i64),
    Double(u64),
    Text(String),
}

/// The mathematical value of a `FieldValue`.
pub enum FieldValueView {
    Integer(i32),
    Float(u32),
    Long(i64),
    Double(u64),
    Text(Seq<char>),
}

impl View for FieldValue {
    type V = FieldValueView;

    open spec fn view(&self) -> FieldValueView {
        match *self {
            FieldValue::Integer(v) => FieldValueView::Integer(v),
            FieldValue::Float(bits) => FieldValueView::Float(bits),
            FieldValue::Long(v) => FieldValueView::Long(v),
            FieldValue::Double(bits) => FieldValueView::Double(bits),
            FieldValue::Text(s) => FieldValueView::Text(s@),
        }
    }
}

/// The constant at `index`: an `Integer`, `Float`, `Long` or `Double`
/// gives its value, a `String` the text of the `Utf8` entry it names. A
/// lookup that finds nothing is `NoSuchConstantPoolEntry` with `offset`; an
/// entry of any other kind is `InvalidConstantValue`.
pub open spec fn spec_constant_value(pool: Seq<CpInfoView>, index: u16, offset: u64) -> Result<
    FieldValueView,
    DecompileError,
> {
    match spec_lookup(pool, index as int) {
        None => Err(DecompileError::NoSuchConstantPoolEntry(index, offset)),
        Some(slot) => match slot.info {
            Some(ConstantPoolTypeView::ConstantInteger { value }) => Ok(FieldValueView::Integer(value)),
            Some(ConstantPoolTypeView::ConstantFloat { bits }) => Ok(FieldValueView::Float(bits)),
            Some(ConstantPoolTypeView::ConstantLong { value }) => Ok(FieldValueView::Long(value)),
            Some(ConstantPoolTypeView::ConstantDouble { bits }) => Ok(FieldValueView::Double(bits)),
            Some(ConstantPoolTypeView::ConstantString { string_idx }) => match spec_resolve_utf8(
                pool,
                string_idx,
                offset,
            ) {
                Ok(text) => Ok(FieldValueView::Text(text)),
                Err(e) => Err(e),
            },
            _ => Err(DecompileError::InvalidConstantValue(index)),
        },
    }
}

/// The constant that the pool holds at `index`; `offset` is where the
/// decoder stands, for the error.
pub fn constant_value(pool: &ConstantPool, index: u16, offset: u64) -> (r: Result<
    FieldValue,
    DecompileError,
>)
    ensures
        match spec_constant_value(pool@, index, offset) {
            Ok(v) => r matches Ok(x) && x@ == v,
            Err(e) => r matches Err(g) && g == e,
        },
{
    match pool.get(index as usize) {
        None => Err(DecompileError::NoSuchConstantPoolEntry(index, offset)),
        Some(slot) => match &slot.info {
            Some(ConstantPoolType::ConstantInteger { value }) => Ok(FieldValue::Integer(*value)),
            Some(ConstantPoolType::ConstantFloat { bits }) => Ok(FieldValue::Float(*bits)),
            Some(ConstantPoolType::ConstantLong { value }) => Ok(FieldValue::Long(*value)),
            Some(ConstantPoolType::ConstantDouble { bits }) => Ok(FieldValue::Double(*bits)),
            Some(ConstantPoolType::ConstantString { string_idx }) => {
                let text = resolve_utf8_cp_entry(pool, *string_idx, offset)?;
                Ok(FieldValue::Text(text))
            },
            _ => Err(DecompileError::InvalidConstantValue(index)),
        },
    }
}

} // verus!
