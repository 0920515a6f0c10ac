//! The access flag masks of fields and methods.
use vstd::prelude::*;

use crate::class::{FieldInfo, MethodInfo};

verus! {

pub const ACC_PUBLIC: u16 = 0x0001;

pub const ACC_PRIVATE: u16 = 0x0002;

pub const ACC_PROTECTED: u16 = 0x0004;

pub const ACC_STATIC: u16 = 0x0008;

pub const ACC_FINAL: u16 = 0x0010;

pub const ACC_SYNCHRONIZED: u16 = 0x0020;

pub const ACC_VOLATILE: u16 = 0x0040;

pub const ACC_BRIDGE: u16 = 0x0040;

pub const ACC_TRANSIENT: u16 = 0x0080;

pub const ACC_VARARGS: u16 = 0x0080;

pub const ACC_NATIVE: u16 = 0x0100;

pub const ACC_ABSTRACT: u16 = 0x0400;

pub const ACC_STRICT: u16 = 0x0800;

pub const ACC_SYNTHETIC: u16 = 0x1000;

pub const ACC_ENUM: u16 = 0x4000;

/// Whether every bit of `mask` is set in `bits`.
pub open spec fn has_flags(bits: u16, mask: u16) -> bool {
    bits & mask == mask
}

/// The access flags of a field.
#[derive(Debug, Clone, Copy, PartialEq, Eq)]
pub struct FieldAccessFlags {
    pub bits: u16,
}

/// The access flags of a method.
#[derive(Debug, Clone, Copy, PartialEq, Eq)]
pub struct MethodAccessFlags {
    pub bits: u16,
}

impl FieldAccessFlags {
    /// Whether every flag of `mask` is set.
    pub fn contains(&self, mask: u16) -> (r: bool)
        ensures
            r == has_flags(self.bits, mask),
    {
        self.bits & mask == mask
    }

    /// Whether the field is `static`; only then does a `ConstantValue`
    /// attribute initialize it.
    pub fn is_static(&self) -> (r: bool)
        ensures
            r == has_flags(self.bits, ACC_STATIC),
    {
        self.contains(ACC_STATIC)
    }
}

impl MethodAccessFlags {
    /// Whether every flag of `mask` is set.
    pub fn contains(&self, mask: u16) -> (r: bool)
        ensures
            r == has_flags(self.bits, mask),
    {
        self.bits & mask == mask
    }
}

impl FieldInfo {
    /// The access flags of the field.
    pub fn flags(&self) -> (f: FieldAccessFlags)
        ensures
            f.bits == self.access_flags,
    {
        FieldAccessFlags { bits: self.access_flags }
    }
}

impl MethodInfo {
    /// The access flags of the method.
    pub fn flags(&self) -> (f: MethodAccessFlags)
        ensures
            f.bits == self.access_flags,
    {
        MethodAccessFlags { bits: self.access_flags }
    }
}

} // verus!
