//! The fixed-shape rows of the table-shaped attributes. Each row is a run of
//! big-endian fields with no padding, read all or not at all.
use vstd::prelude::*;

use crate::cursor::{be16, eof, fits, Cursor, Decoded};
use crate::error::DecompileError;
use crate::table::Decode;

verus! {

/// One handler range of a `Code` attribute. A `catch_type` of 0 catches everything.
#[derive(Debug, Clone, Copy, PartialEq, Eq)]
pub struct ExceptionTable {
    pub start_pc: u16,
    pub end_pc: u16,
    pub handler_pc: u16,
    pub catch_type: u16,
}

impl View for ExceptionTable {
    type V = ExceptionTable;

    open spec fn view(&self) -> ExceptionTable {
        *self
    }
}

impl Decode for ExceptionTable {
    open spec fn spec_decode(b: Seq<u8>, pos: int, end: int) -> Decoded<ExceptionTable> {
        if fits(pos, end, 8) {
            Ok(
                (
                    ExceptionTable {
                        start_pc: be16(b, pos),
                        end_pc: be16(b, pos + 2),
                        handler_pc: be16(b, pos + 4),
                        catch_type: be16(b, pos + 6),
                    },
                    pos + 8,
                ),
            )
        } else {
            Err(eof(pos))
        }
    }

    proof fn lemma_forward(b: Seq<u8>, pos: int, end: int) {
    }

    open spec fn counted(v: ExceptionTable) -> bool {
        true
    }

    proof fn lemma_counted(b: Seq<u8>, pos: int, end: int) {
    }

    fn decode(cur: &mut Cursor) -> (r: Result<ExceptionTable, DecompileError>) {
        cur.need(8)?;
        let start_pc = cur.take_u16();
        let end_pc = cur.take_u16();
        let handler_pc = cur.take_u16();
        let catch_type = cur.take_u16();
        Ok(ExceptionTable { start_pc, end_pc, handler_pc, catch_type })
    }
}

/// One row of a `LineNumberTable`: the code offset at which a source line begins.
#[derive(Debug, Clone, Copy, PartialEq, Eq)]
pub struct LineNumberTableEntry {
    pub start_pc: u16,
    pub line_number: u16,
}

impl View for LineNumberTableEntry {
    type V = LineNumberTableEntry;

    open spec fn view(&self) -> LineNumberTableEntry {
        *self
    }
}

impl Decode for LineNumberTableEntry {
    open spec fn spec_decode(b: Seq<u8>, pos: int, end: int) -> Decoded<LineNumberTableEntry> {
        if fits(pos, end, 4) {
            Ok(
                (
                    LineNumberTableEntry {
                        start_pc: be16(b, pos),
                        line_number: be16(b, pos + 2),
                    },
                    pos + 4,
                ),
            )
        } else {
            Err(eof(pos))
        }
    }

    proof fn lemma_forward(b: Seq<u8>, pos: int, end: int) {
    }

    open spec fn counted(v: LineNumberTableEntry) -> bool {
        true
    }

    proof fn lemma_counted(b: Seq<u8>, pos: int, end: int) {
    }

    fn decode(cur: &mut Cursor) -> (r: Result<LineNumberTableEntry, DecompileError>) {
        cur.need(4)?;
        let start_pc = cur.take_u16();
        let line_number = cur.take_u16();
        Ok(LineNumberTableEntry { start_pc, line_number })
    }
}

/// One row of an `InnerClasses` attribute.
#[derive(Debug, Clone, Copy, PartialEq, Eq)]
pub struct InnerClassInfo {
    pub inner_class_info_index: u16,
    pub outer_class_info_index: u16,
    pub inner_name_index: u16,
    pub inner_class_access_flags: u16,
}

impl View for InnerClassInfo {
    type V = InnerClassInfo;

    open spec fn view(&self) -> InnerClassInfo {
        *self
    }
}

impl Decode for InnerClassInfo {
    open spec fn spec_decode(b: Seq<u8>, pos: int, end: int) -> Decoded<InnerClassInfo> {
        if fits(pos, end, 8) {
            Ok(
                (
                    InnerClassInfo {
                        inner_class_info_index: be16(b, pos),
                        outer_class_info_index: be16(b, pos + 2),
                        inner_name_index: be16(b, pos + 4),
                        inner_class_access_flags: be16(b, pos + 6),
                    },
                    pos + 8,
                ),
            )
        } else {
            Err(eof(pos))
        }
    }

    proof fn lemma_forward(b: Seq<u8>, pos: int, end: int) {
    }

    open spec fn counted(v: InnerClassInfo) -> bool {
        true
    }

    proof fn lemma_counted(b: Seq<u8>, pos: int, end: int) {
    }

    fn decode(cur: &mut Cursor) -> (r: Result<InnerClassInfo, DecompileError>) {
        cur.need(8)?;
        let inner_class_info_index = cur.take_u16();
        let outer_class_info_index = cur.take_u16();
        let inner_name_index = cur.take_u16();
        let inner_class_access_flags = cur.take_u16();
        Ok(
            InnerClassInfo {
                inner_class_info_index,
                outer_class_info_index,
                inner_name_index,
                inner_class_access_flags,
            },
        )
    }
}

/// One row of a `MethodParameters` attribute.
#[derive(Debug, Clone, Copy, PartialEq, Eq)]
pub struct MethodParameter {
    pub name_index: u16,
    pub access_flags: u16,
}

impl View for MethodParameter {
    type V = MethodParameter;

    open spec fn view(&self) -> MethodParameter {
        *self
    }
}

impl Decode for MethodParameter {
    open spec fn spec_decode(b: Seq<u8>, pos: int, end: int) -> Decoded<MethodParameter> {
        if fits(pos, end, 4) {
            Ok(
                (
                    MethodParameter {
                        name_index: be16(b, pos),
                        access_flags: be16(b, pos + 2),
                    },
                    pos + 4,
                ),
            )
        } else {
            Err(eof(pos))
        }
    }

    proof fn lemma_forward(b: Seq<u8>, pos: int, end: int) {
    }

    open spec fn counted(v: MethodParameter) -> bool {
        true
    }

    proof fn lemma_counted(b: Seq<u8>, pos: int, end: int) {
    }

    fn decode(cur: &mut Cursor) -> (r: Result<MethodParameter, DecompileError>) {
        cur.need(4)?;
        let name_index = cur.take_u16();
        let access_flags = cur.take_u16();
        Ok(MethodParameter { name_index, access_flags })
    }
}

/// One row of a `LocalVariableTable`.
#[derive(Debug, Clone, Copy, PartialEq, Eq)]
pub struct LocalVariableTableEntry {
    pub start_pc: u16,
    pub length: u16,
    pub name_index: u16,
    pub descriptor_index: u16,
    pub index: u16,
}

impl View for LocalVariableTableEntry {
    type V = LocalVariableTableEntry;

    open spec fn view(&self) -> LocalVariableTableEntry {
        *self
    }
}

impl Decode for LocalVariableTableEntry {
    open spec fn spec_decode(b: Seq<u8>, pos: int, end: int) -> Decoded<LocalVariableTableEntry> {
        if fits(pos, end, 10) {
            Ok(
                (
                    LocalVariableTableEntry {
                        start_pc: be16(b, pos),
                        length: be16(b, pos + 2),
                        name_index: be16(b, pos + 4),
                        descriptor_index: be16(b, pos + 6),
                        index: be16(b, pos + 8),
                    },
                    pos + 10,
                ),
            )
        } else {
            Err(eof(pos))
        }
    }

    proof fn lemma_forward(b: Seq<u8>, pos: int, end: int) {
    }

    open spec fn counted(v: LocalVariableTableEntry) -> bool {
        true
    }

    proof fn lemma_counted(b: Seq<u8>, pos: int, end: int) {
    }

    fn decode(cur: &mut Cursor) -> (r: Result<LocalVariableTableEntry, DecompileError>) {
        cur.need(10)?;
        let start_pc = cur.take_u16();
        let length = cur.take_u16();
        let name_index = cur.take_u16();
        let descriptor_index = cur.take_u16();
        let index = cur.take_u16();
        Ok(LocalVariableTableEntry { start_pc, length, name_index, descriptor_index, index })
    }
}

/// One row of a `LocalVariableTypeTable`.
#[derive(Debug, Clone, Copy, PartialEq, Eq)]
pub struct LocalVariableTypeTableEntry {
    pub start_pc: u16,
    pub length: u16,
    pub name_index: u16,
    pub signature_index: u16,
    pub index: u16,
}

impl View for LocalVariableTypeTableEntry {
    type V = LocalVariableTypeTableEntry;

    open spec fn view(&self) -> LocalVariableTypeTableEntry {
        *self
    }
}

impl Decode for LocalVariableTypeTableEntry {
    open spec fn spec_decode(b: Seq<u8>, pos: int, end: int) -> Decoded<LocalVariableTypeTableEntry> {
        if fits(pos, end, 10) {
            Ok(
                (
                    LocalVariableTypeTableEntry {
                        start_pc: be16(b, pos),
                        length: be16(b, pos + 2),
                        name_index: be16(b, pos + 4),
                        signature_index: be16(b, pos + 6),
                        index: be16(b, pos + 8),
                    },
                    pos + 10,
                ),
            )
        } else {
            Err(eof(pos))
        }
    }

    proof fn lemma_forward(b: Seq<u8>, pos: int, end: int) {
    }

    open spec fn counted(v: LocalVariableTypeTableEntry) -> bool {
        true
    }

    proof fn lemma_counted(b: Seq<u8>, pos: int, end: int) {
    }

    fn decode(cur: &mut Cursor) -> (r: Result<LocalVariableTypeTableEntry, DecompileError>) {
        cur.need(10)?;
        let start_pc = cur.take_u16();
        let length = cur.take_u16();
        let name_index = cur.take_u16();
        let signature_index = cur.take_u16();
        let index = cur.take_u16();
        Ok(LocalVariableTypeTableEntry { start_pc, length, name_index, signature_index, index })
    }
}

/// One live range of a local variable that a type annotation targets.
#[derive(Debug, Clone, Copy, PartialEq, Eq)]
pub struct LocalVarTable {
    pub start_pc: u16,
    pub length: u16,
    pub index: u16,
}

impl View for LocalVarTable {
    type V = LocalVarTable;

    open spec fn view(&self) -> LocalVarTable {
        *self
    }
}

impl Decode for LocalVarTable {
    open spec fn spec_decode(b: Seq<u8>, pos: int, end: int) -> Decoded<LocalVarTable> {
        if fits(pos, end, 6) {
            Ok(
                (
                    LocalVarTable {
                        start_pc: be16(b, pos),
                        length: be16(b, pos + 2),
                        index: be16(b, pos + 4),
                    },
                    pos + 6,
                ),
            )
        } else {
            Err(eof(pos))
        }
    }

    proof fn lemma_forward(b: Seq<u8>, pos: int, end: int) {
    }

    open spec fn counted(v: LocalVarTable) -> bool {
        true
    }

    proof fn lemma_counted(b: Seq<u8>, pos: int, end: int) {
    }

    fn decode(cur: &mut Cursor) -> (r: Result<LocalVarTable, DecompileError>) {
        cur.need(6)?;
        let start_pc = cur.take_u16();
        let length = cur.take_u16();
        let index = cur.take_u16();
        Ok(LocalVarTable { start_pc, length, index })
    }
}

/// One step of the path from a type to the part that an annotation is on.
#[derive(Debug, Clone, Copy, PartialEq, Eq)]
pub struct TypePathElement {
    pub type_path_kind: u8,
    pub type_argument_index: u8,
}

impl View for TypePathElement {
    type V = TypePathElement;

    open spec fn view(&self) -> TypePathElement {
        *self
    }
}

impl Decode for TypePathElement {
    open spec fn spec_decode(b: Seq<u8>, pos: int, end: int) -> Decoded<TypePathElement> {
        if fits(pos, end, 2) {
            Ok(
                (
                    TypePathElement {
                        type_path_kind: b[pos],
                        type_argument_index: b[pos + 1],
                    },
                    pos + 2,
                ),
            )
        } else {
            Err(eof(pos))
        }
    }

    proof fn lemma_forward(b: Seq<u8>, pos: int, end: int) {
    }

    open spec fn counted(v: TypePathElement) -> bool {
        true
    }

    proof fn lemma_counted(b: Seq<u8>, pos: int, end: int) {
    }

    fn decode(cur: &mut Cursor) -> (r: Result<TypePathElement, DecompileError>) {
        cur.need(2)?;
        let type_path_kind = cur.take_u8();
        let type_argument_index = cur.take_u8();
        Ok(TypePathElement { type_path_kind, type_argument_index })
    }
}

/// One `requires` row of a `Module` attribute.
#[derive(Debug, Clone, Copy, PartialEq, Eq)]
pub struct ModuleRequirement {
    pub requires_index: u16,
    pub requires_flags: u16,
    pub requires_version_index: u16,
}

impl View for ModuleRequirement {
    type V = ModuleRequirement;

    open spec fn view(&self) -> ModuleRequirement {
        *self
    }
}

impl Decode for ModuleRequirement {
    open spec fn spec_decode(b: Seq<u8>, pos: int, end: int) -> Decoded<ModuleRequirement> {
        if fits(pos, end, 6) {
            Ok(
                (
                    ModuleRequirement {
                        requires_index: be16(b, pos),
                        requires_flags: be16(b, pos + 2),
                        requires_version_index: be16(b, pos + 4),
                    },
                    pos + 6,
                ),
            )
        } else {
            Err(eof(pos))
        }
    }

    proof fn lemma_forward(b: Seq<u8>, pos: int, end: int) {
    }

    open spec fn counted(v: ModuleRequirement) -> bool {
        true
    }

    proof fn lemma_counted(b: Seq<u8>, pos: int, end: int) {
    }

    fn decode(cur: &mut Cursor) -> (r: Result<ModuleRequirement, DecompileError>) {
        cur.need(6)?;
        let requires_index = cur.take_u16();
        let requires_flags = cur.take_u16();
        let requires_version_index = cur.take_u16();
        Ok(ModuleRequirement { requires_index, requires_flags, requires_version_index })
    }
}

} // verus!
