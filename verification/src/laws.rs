//! What holds of every pool and of every class that decodes.
use vstd::prelude::*;

use crate::attribute::{kind_of, AttributeKind, AttributeView};
use crate::attribute_decoder::{spec_attribute, spec_body, spec_flat_body};
use crate::class::{ClassFile, ClassFileView, CAFE_BABE};
use crate::constant_value::{spec_constant_value, FieldValueView};
use crate::cursor::{be16, be32, fits, Decoded};
use crate::decompile::{
    declared_pool_count, decodes_to, lemma_decoded_class_is_well_formed, spec_class,
    spec_field_value, spec_field_value_from,
};
use crate::error::DecompileError;
use crate::pool::{all_tagged, pool_wf, spec_lookup, spec_resolve_utf8, CpInfoView};
use crate::pool_decoder::slots_for;

verus! {

/// Index 0 names no entry, in any pool.
pub proof fn lemma_index_zero_is_empty(pool: Seq<CpInfoView>, offset: u64)
    ensures
        spec_lookup(pool, 0) is None,
        spec_resolve_utf8(pool, 0, offset) == Err::<Seq<char>, DecompileError>(
            DecompileError::NoSuchConstantPoolEntry(0, offset),
        ),
{
}

/// In a well-formed pool the index after a `Long` or `Double` lies in the
/// pool and names no entry: a lookup there finds nothing, and resolving it
/// is `NoSuchConstantPoolEntry`.
pub proof fn lemma_index_after_wide_is_empty(pool: Seq<CpInfoView>, index: u16, offset: u64)
    requires
        pool_wf(pool),
        spec_lookup(pool, index as int) matches Some(slot) && slot.is_wide(),
        index < u16::MAX,
    ensures
        index + 1 <= pool.len(),
        spec_lookup(pool, index + 1) is None,
        spec_resolve_utf8(pool, (index + 1) as u16, offset) == Err::<Seq<char>, DecompileError>(
            DecompileError::NoSuchConstantPoolEntry((index + 1) as u16, offset),
        ),
{
    assert(pool[index - 1].is_wide());
}

/// The pool of a class that decodes has `constant_pool_count - 1` slots
/// and is well formed, every slot carries the tag of the kind of its
/// entry, and index 0 names no entry in it.
pub proof fn lemma_decoded_pool(b: Seq<u8>)
    ensures
        spec_class(b) matches Ok(class) ==> {
            &&& class.constant_pool.len() == slots_for(declared_pool_count(b))
            &&& pool_wf(class.constant_pool)
            &&& all_tagged(class.constant_pool)
            &&& spec_lookup(class.constant_pool, 0) is None
        },
{
    lemma_decoded_class_is_well_formed(b);
}

/// In a class that decodes, the index after a `Long` or `Double` names no
/// entry: resolving it is `NoSuchConstantPoolEntry`.
pub proof fn lemma_decoded_wide_entry(b: Seq<u8>, index: u16, offset: u64)
    requires
        spec_class(b) matches Ok(class) && (spec_lookup(class.constant_pool, index as int) matches Some(
            slot,
        ) && slot.is_wide()),
    ensures
        spec_class(b) matches Ok(class) && spec_lookup(class.constant_pool, index + 1) is None
            && spec_resolve_utf8(class.constant_pool, (index + 1) as u16, offset) == Err::<
            Seq<char>,
            DecompileError,
        >(DecompileError::NoSuchConstantPoolEntry((index + 1) as u16, offset)),
{
    lemma_decoded_pool(b);
    let class = spec_class(b)->Ok_0;
    lemma_index_after_wide_is_empty(class.constant_pool, index, offset);
}

/// Decoding is a function of the bytes: two decodings of the same bytes
/// give classes of equal value, or the same error.
pub proof fn lemma_decoding_twice(
    b: Seq<u8>,
    first: Result<ClassFile, DecompileError>,
    second: Result<ClassFile, DecompileError>,
)
    requires
        decodes_to(b, first),
        decodes_to(b, second),
    ensures
        match first {
            Ok(c1) => second matches Ok(c2) && c1@ == c2@,
            Err(e1) => second matches Err(e2) && e1 == e2,
        },
{
}

/// A file of fewer than four bytes fails at offset 0 for want of bytes.
pub proof fn lemma_short_magic(b: Seq<u8>)
    requires
        b.len() < 4,
    ensures
        spec_class(b) == Err::<ClassFileView, DecompileError>(DecompileError::UnexpectedEof(0)),
{
}

/// A file with the right magic whose version is cut short fails for want
/// of bytes, at the offset of the version number that is incomplete.
pub proof fn lemma_short_version(b: Seq<u8>)
    requires
        4 <= b.len() < 8,
        be32(b, 0) == CAFE_BABE,
    ensures
        spec_class(b) == Err::<ClassFileView, DecompileError>(
            DecompileError::UnexpectedEof(
                if b.len() < 6 {
                    4
                } else {
                    6
                },
            ),
        ),
{
}

/// A file with any other magic fails with `InvalidMagicNumber` and the
/// value found, whatever follows.
pub proof fn lemma_wrong_magic(b: Seq<u8>)
    requires
        4 <= b.len(),
        be32(b, 0) != CAFE_BABE,
    ensures
        spec_class(b) == Err::<ClassFileView, DecompileError>(
            DecompileError::InvalidMagicNumber(be32(b, 0)),
        ),
{
}

/// An attribute whose name the decoder does not know is kept with its
/// name index, its declared length and exactly the bytes of its body, and
/// decoding goes on just past them.
pub proof fn lemma_unknown_attribute_is_kept(b: Seq<u8>, pos: int, end: int, pool: Seq<CpInfoView>)
    requires
        0 <= pos,
        fits(pos, end, 6),
        fits(pos + 6, end, be32(b, pos + 2) as int),
        spec_resolve_utf8(pool, be16(b, pos), (pos + 6) as u64) matches Ok(name) && kind_of(
            name,
        ) is Unknown,
    ensures
        spec_attribute(b, pos, end, pool) == Ok::<(AttributeView, int), DecompileError>(
            (
                AttributeView::Unknown {
                    attribute_name_index: be16(b, pos),
                    attribute_length: be32(b, pos + 2),
                    info: b.subrange(pos + 6, pos + 6 + be32(b, pos + 2)),
                },
                pos + 6 + be32(b, pos + 2),
            ),
        ),
{
    reveal(spec_flat_body);
}

/// An attribute whose name index does not resolve to text fails with the
/// error of the resolution, whatever its body holds.
pub proof fn lemma_attribute_name_must_resolve(b: Seq<u8>, pos: int, end: int, pool: Seq<CpInfoView>)
    requires
        fits(pos, end, 6),
        spec_resolve_utf8(pool, be16(b, pos), (pos + 6) as u64) is Err,
    ensures
        spec_attribute(b, pos, end, pool) == Err::<(AttributeView, int), DecompileError>(
            spec_resolve_utf8(pool, be16(b, pos), (pos + 6) as u64)->Err_0,
        ),
{
}

/// Whether the outcome `r` of decoding a body, if it is an attribute, is
/// one of kind `kind` with the name index and the length given.
pub open spec fn keeps_the_header(
    r: Decoded<AttributeView>,
    kind: AttributeKind,
    name_index: u16,
    length: u32,
) -> bool {
    r matches Ok((a, p)) ==> {
        &&& a.kind() == kind
        &&& a.name_index() == name_index
        &&& a.length() == length
    }
}

/// The body of an attribute that holds no attributes of its own decodes
/// to an attribute of the kind asked for, with the name index and the
/// length handed to it.
pub proof fn lemma_flat_body_keeps_the_header(
    b: Seq<u8>,
    pos: int,
    end: int,
    kind: AttributeKind,
    name_index: u16,
    length: u32,
    pool: Seq<CpInfoView>,
)
    requires
        !(kind is Code),
        !(kind is Record),
    ensures
        keeps_the_header(
            spec_flat_body(b, pos, end, kind, name_index, length, pool),
            kind,
            name_index,
            length,
        ),
{
    match kind {
        AttributeKind::ConstantValue => {
            assert(keeps_the_header(
                spec_flat_body(b, pos, end, AttributeKind::ConstantValue, name_index, length, pool),
                AttributeKind::ConstantValue,
                name_index,
                length,
            )) by {
                reveal(spec_flat_body);
            }
        },
        AttributeKind::StackMapTable => {
            assert(keeps_the_header(
                spec_flat_body(b, pos, end, AttributeKind::StackMapTable, name_index, length, pool),
                AttributeKind::StackMapTable,
                name_index,
                length,
            )) by {
                reveal(spec_flat_body);
            }
        },
        AttributeKind::Exceptions => {
            assert(keeps_the_header(
                spec_flat_body(b, pos, end, AttributeKind::Exceptions, name_index, length, pool),
                AttributeKind::Exceptions,
                name_index,
                length,
            )) by {
                reveal(spec_flat_body);
            }
        },
        AttributeKind::InnerClasses => {
            assert(keeps_the_header(
                spec_flat_body(b, pos, end, AttributeKind::InnerClasses, name_index, length, pool),
                AttributeKind::InnerClasses,
                name_index,
                length,
            )) by {
                reveal(spec_flat_body);
            }
        },
        AttributeKind::EnclosingMethod => {
            assert(keeps_the_header(
                spec_flat_body(b, pos, end, AttributeKind::EnclosingMethod, name_index, length, pool),
                AttributeKind::EnclosingMethod,
                name_index,
                length,
            )) by {
                reveal(spec_flat_body);
            }
        },
        AttributeKind::Synthetic => {
            assert(keeps_the_header(
                spec_flat_body(b, pos, end, AttributeKind::Synthetic, name_index, length, pool),
                AttributeKind::Synthetic,
                name_index,
                length,
            )) by {
                reveal(spec_flat_body);
            }
        },
        AttributeKind::Signature => {
            assert(keeps_the_header(
                spec_flat_body(b, pos, end, AttributeKind::Signature, name_index, length, pool),
                AttributeKind::Signature,
                name_index,
                length,
            )) by {
                reveal(spec_flat_body);
            }
        },
        AttributeKind::SourceFile => {
            assert(keeps_the_header(
                spec_flat_body(b, pos, end, AttributeKind::SourceFile, name_index, length, pool),
                AttributeKind::SourceFile,
                name_index,
                length,
            )) by {
                reveal(spec_flat_body);
            }
        },
        AttributeKind::SourceDebugExtension => {
            assert(keeps_the_header(
                spec_flat_body(b, pos, end, AttributeKind::SourceDebugExtension, name_index, length, pool),
                AttributeKind::SourceDebugExtension,
                name_index,
                length,
            )) by {
                reveal(spec_flat_body);
            }
        },
        AttributeKind::LineNumberTable => {
            assert(keeps_the_header(
                spec_flat_body(b, pos, end, AttributeKind::LineNumberTable, name_index, length, pool),
                AttributeKind::LineNumberTable,
                name_index,
                length,
            )) by {
                reveal(spec_flat_body);
            }
        },
        AttributeKind::LocalVariableTable => {
            assert(keeps_the_header(
                spec_flat_body(b, pos, end, AttributeKind::LocalVariableTable, name_index, length, pool),
                AttributeKind::LocalVariableTable,
                name_index,
                length,
            )) by {
                reveal(spec_flat_body);
            }
        },
        AttributeKind::LocalVariableTypeTable => {
            assert(keeps_the_header(
                spec_flat_body(b, pos, end, AttributeKind::LocalVariableTypeTable, name_index, length, pool),
                AttributeKind::LocalVariableTypeTable,
                name_index,
                length,
            )) by {
                reveal(spec_flat_body);
            }
        },
        AttributeKind::Deprecated => {
            assert(keeps_the_header(
                spec_flat_body(b, pos, end, AttributeKind::Deprecated, name_index, length, pool),
                AttributeKind::Deprecated,
                name_index,
                length,
            )) by {
                reveal(spec_flat_body);
            }
        },
        AttributeKind::RuntimeVisibleAnnotations => {
            assert(keeps_the_header(
                spec_flat_body(b, pos, end, AttributeKind::RuntimeVisibleAnnotations, name_index, length, pool),
                AttributeKind::RuntimeVisibleAnnotations,
                name_index,
                length,
            )) by {
                reveal(spec_flat_body);
            }
        },
        AttributeKind::RuntimeInvisibleAnnotations => {
            assert(keeps_the_header(
                spec_flat_body(b, pos, end, AttributeKind::RuntimeInvisibleAnnotations, name_index, length, pool),
                AttributeKind::RuntimeInvisibleAnnotations,
                name_index,
                length,
            )) by {
                reveal(spec_flat_body);
            }
        },
        AttributeKind::RuntimeVisibleParameterAnnotations => {
            assert(keeps_the_header(
                spec_flat_body(b, pos, end, AttributeKind::RuntimeVisibleParameterAnnotations, name_index, length, pool),
                AttributeKind::RuntimeVisibleParameterAnnotations,
                name_index,
                length,
            )) by {
                reveal(spec_flat_body);
            }
        },
        AttributeKind::RuntimeInvisibleParameterAnnotations => {
            assert(keeps_the_header(
                spec_flat_body(b, pos, end, AttributeKind::RuntimeInvisibleParameterAnnotations, name_index, length, pool),
                AttributeKind::RuntimeInvisibleParameterAnnotations,
                name_index,
                length,
            )) by {
                reveal(spec_flat_body);
            }
        },
        AttributeKind::RuntimeVisibleTypeAnnotations => {
            assert(keeps_the_header(
                spec_flat_body(b, pos, end, AttributeKind::RuntimeVisibleTypeAnnotations, name_index, length, pool),
                AttributeKind::RuntimeVisibleTypeAnnotations,
                name_index,
                length,
            )) by {
                reveal(spec_flat_body);
            }
        },
        AttributeKind::RuntimeInvisibleTypeAnnotations => {
            assert(keeps_the_header(
                spec_flat_body(b, pos, end, AttributeKind::RuntimeInvisibleTypeAnnotations, name_index, length, pool),
                AttributeKind::RuntimeInvisibleTypeAnnotations,
                name_index,
                length,
            )) by {
                reveal(spec_flat_body);
            }
        },
        AttributeKind::AnnotationDefault => {
            assert(keeps_the_header(
                spec_flat_body(b, pos, end, AttributeKind::AnnotationDefault, name_index, length, pool),
                AttributeKind::AnnotationDefault,
                name_index,
                length,
            )) by {
                reveal(spec_flat_body);
            }
        },
        AttributeKind::BootstrapMethods => {
            assert(keeps_the_header(
                spec_flat_body(b, pos, end, AttributeKind::BootstrapMethods, name_index, length, pool),
                AttributeKind::BootstrapMethods,
                name_index,
                length,
            )) by {
                reveal(spec_flat_body);
            }
        },
        AttributeKind::MethodParameters => {
            assert(keeps_the_header(
                spec_flat_body(b, pos, end, AttributeKind::MethodParameters, name_index, length, pool),
                AttributeKind::MethodParameters,
                name_index,
                length,
            )) by {
                reveal(spec_flat_body);
            }
        },
        AttributeKind::Module => {
            assert(keeps_the_header(
                spec_flat_body(b, pos, end, AttributeKind::Module, name_index, length, pool),
                AttributeKind::Module,
                name_index,
                length,
            )) by {
                reveal(spec_flat_body);
            }
        },
        AttributeKind::ModulePackages => {
            assert(keeps_the_header(
                spec_flat_body(b, pos, end, AttributeKind::ModulePackages, name_index, length, pool),
                AttributeKind::ModulePackages,
                name_index,
                length,
            )) by {
                reveal(spec_flat_body);
            }
        },
        AttributeKind::ModuleMainClass => {
            assert(keeps_the_header(
                spec_flat_body(b, pos, end, AttributeKind::ModuleMainClass, name_index, length, pool),
                AttributeKind::ModuleMainClass,
                name_index,
                length,
            )) by {
                reveal(spec_flat_body);
            }
        },
        AttributeKind::NestHost => {
            assert(keeps_the_header(
                spec_flat_body(b, pos, end, AttributeKind::NestHost, name_index, length, pool),
                AttributeKind::NestHost,
                name_index,
                length,
            )) by {
                reveal(spec_flat_body);
            }
        },
        AttributeKind::NestMembers => {
            assert(keeps_the_header(
                spec_flat_body(b, pos, end, AttributeKind::NestMembers, name_index, length, pool),
                AttributeKind::NestMembers,
                name_index,
                length,
            )) by {
                reveal(spec_flat_body);
            }
        },
        AttributeKind::PermittedSubclasses => {
            assert(keeps_the_header(
                spec_flat_body(b, pos, end, AttributeKind::PermittedSubclasses, name_index, length, pool),
                AttributeKind::PermittedSubclasses,
                name_index,
                length,
            )) by {
                reveal(spec_flat_body);
            }
        },
        AttributeKind::Unknown => {
            assert(keeps_the_header(
                spec_flat_body(b, pos, end, AttributeKind::Unknown, name_index, length, pool),
                AttributeKind::Unknown,
                name_index,
                length,
            )) by {
                reveal(spec_flat_body);
            }
        },
        _ => {},
    }
}

/// The body of an attribute decodes to an attribute of the kind asked for,
/// with the name index and the length handed to it.
pub proof fn lemma_body_keeps_the_header(
    b: Seq<u8>,
    pos: int,
    end: int,
    kind: AttributeKind,
    name_index: u16,
    length: u32,
    pool: Seq<CpInfoView>,
)
    ensures
        spec_body(b, pos, end, kind, name_index, length, pool) matches Ok((a, p)) ==> {
            &&& a.kind() == kind
            &&& a.name_index() == name_index
            &&& a.length() == length
        },
{
    if !(kind is Code) && !(kind is Record) {
        lemma_flat_body_keeps_the_header(b, pos, end, kind, name_index, length, pool);
    }
}

/// An attribute that decodes keeps its header: its name index and its
/// declared length are those of the file, and its kind is the one that the
/// text of its name selects.
pub proof fn lemma_attribute_keeps_its_header(b: Seq<u8>, pos: int, end: int, pool: Seq<CpInfoView>)
    ensures
        spec_attribute(b, pos, end, pool) matches Ok((a, p)) ==> {
            &&& a.name_index() == be16(b, pos)
            &&& a.length() == be32(b, pos + 2)
            &&& spec_resolve_utf8(pool, be16(b, pos), (pos + 6) as u64) matches Ok(name) && a.kind()
                == kind_of(name)
        },
{
    if fits(pos, end, 6) {
        match spec_resolve_utf8(pool, be16(b, pos), (pos + 6) as u64) {
            Ok(name) => {
                lemma_body_keeps_the_header(
                    b,
                    pos + 6,
                    pos + 6 + be32(b, pos + 2),
                    kind_of(name),
                    be16(b, pos),
                    be32(b, pos + 2),
                    pool,
                );
            },
            Err(e) => {},
        }
    }
}

/// Whether the attribute at `i` is a `ConstantValue`.
pub open spec fn is_constant_value(attrs: Seq<AttributeView>, i: int) -> bool {
    0 <= i < attrs.len() && attrs[i] is ConstantValue
}

/// The fold over the attributes of a field keeps what it has found: a
/// constant is found exactly when some attribute so far was a
/// `ConstantValue`, there was only one, and the constant is the one that
/// it names.
pub proof fn lemma_field_value_from(
    pool: Seq<CpInfoView>,
    attrs: Seq<AttributeView>,
    i: int,
    found: Option<FieldValueView>,
    offset: u64,
)
    requires
        0 <= i <= attrs.len(),
        found is Some <==> exists|k: int| k < i && is_constant_value(attrs, k),
        forall|j: int, k: int|
            j < i && k < i && is_constant_value(attrs, j) && is_constant_value(attrs, k) ==> j == k,
        forall|k: int|
            k < i && is_constant_value(attrs, k) ==> found is Some && spec_constant_value(
                pool,
                attrs[k]->ConstantValue_constant_value_index,
                offset,
            ) == Ok::<FieldValueView, DecompileError>(found->Some_0),
    ensures
        spec_field_value_from(pool, attrs, i, found, offset) matches Ok(value) ==> {
            &&& value is Some <==> exists|k: int| is_constant_value(attrs, k)
            &&& forall|j: int, k: int|
                is_constant_value(attrs, j) && is_constant_value(attrs, k) ==> j == k
            &&& forall|k: int|
                is_constant_value(attrs, k) ==> value is Some && spec_constant_value(
                    pool,
                    attrs[k]->ConstantValue_constant_value_index,
                    offset,
                ) == Ok::<FieldValueView, DecompileError>(value->Some_0)
        },
    decreases attrs.len() - i,
{
    if i < attrs.len() {
        match attrs[i] {
            AttributeView::ConstantValue { constant_value_index, .. } => {
                assert(is_constant_value(attrs, i));
                if found is None {
                    match spec_constant_value(pool, constant_value_index, offset) {
                        Ok(v) => {
                            lemma_field_value_from(pool, attrs, i + 1, Some(v), offset);
                        },
                        Err(e) => {},
                    }
                }
            },
            _ => {
                lemma_field_value_from(pool, attrs, i + 1, found, offset);
            },
        }
    }
}

/// A field has a constant exactly when one of its attributes is a
/// `ConstantValue`; it has at most one such attribute, and the constant is
/// the one that the attribute names.
pub proof fn lemma_field_value(pool: Seq<CpInfoView>, attrs: Seq<AttributeView>, offset: u64)
    ensures
        spec_field_value(pool, attrs, offset) matches Ok(value) ==> {
            &&& value is Some <==> exists|k: int| is_constant_value(attrs, k)
            &&& forall|j: int, k: int|
                is_constant_value(attrs, j) && is_constant_value(attrs, k) ==> j == k
            &&& forall|k: int|
                is_constant_value(attrs, k) ==> value is Some && spec_constant_value(
                    pool,
                    attrs[k]->ConstantValue_constant_value_index,
                    offset,
                ) == Ok::<FieldValueView, DecompileError>(value->Some_0)
        },
{
    lemma_field_value_from(pool, attrs, 0, None, offset);
}

/// Only an `Integer`, a `Float`, a `Long`, a `Double` or a `String` is a
/// constant that a field can have.
pub proof fn lemma_constant_value_kinds(pool: Seq<CpInfoView>, index: u16, offset: u64)
    ensures
        spec_constant_value(pool, index, offset) is Ok ==> (spec_lookup(pool, index as int) matches Some(
            slot,
        ) && (slot.info matches Some(entry) && (entry is ConstantInteger || entry is ConstantFloat
            || entry is ConstantLong || entry is ConstantDouble || entry is ConstantString))),
{
}

} // verus!
