//! Decoding attributes. An attribute is a name index, a declared length,
//! and a body of exactly that many bytes. The name selects how the body is
//! read; the body of a name that the decoder does not know is kept as raw
//! bytes.
use vstd::prelude::*;

use crate::annotation::{Annotation, ParameterAnnotations, TypeAnnotation};
use crate::annotation_decoder::{lemma_element_value_counted, read_element_value, spec_element_value};
use crate::attribute::{
    all_attributes_counted, all_components_counted, attribute_counted, attribute_kind,
    component_counted, kind_of, Attribute, AttributeKind, AttributeView, RecordComponentInfo,
    RecordComponentInfoView,
};
use crate::constant_value::{constant_value, spec_constant_value};
use crate::cursor::{be16, be32, eof, fits, spec_fixed, spec_u16, views, Cursor, Decoded};
use crate::error::DecompileError;
use crate::frames::StackMapFrame;
use crate::index_lists::{BootstrapMethod, ModuleExport, ModuleOpens, ModuleProvides};
use crate::pool::{resolve_utf8_cp_entry, spec_resolve_utf8, ConstantPool, CpInfoView};
use crate::records::{
    ExceptionTable, InnerClassInfo, LineNumberTableEntry, LocalVariableTableEntry,
    LocalVariableTypeTableEntry, MethodParameter, ModuleRequirement,
};
use crate::table::{
    lemma_counted_forward, lemma_counted_len, read_counted, read_counted8, read_counted_u16,
    spec_counted, spec_counted8,
};

verus! {

/// The error of an attribute whose body does not fill its declared length:
/// `at` is where the body ran out of bytes or stopped short.
pub open spec fn mismatch(name_index: u16, length: u32, at: u64) -> DecompileError {
    DecompileError::AttributeLengthMismatch(name_index, length, at)
}

/// What the decoding `r` of a body means for an attribute whose window
/// ends at `hi`: the body must end exactly at `hi`. A body that ends
/// elsewhere, or that asked for bytes past `hi`, is a length mismatch; any
/// other error stands.
pub open spec fn in_window(r: Decoded<AttributeView>, name_index: u16, length: u32, hi: int) -> Decoded<
    AttributeView,
> {
    match r {
        Ok((a, p)) => if p == hi {
            Ok((a, p))
        } else {
            Err(mismatch(name_index, length, p as u64))
        },
        Err(DecompileError::UnexpectedEof(at)) => Err(mismatch(name_index, length, at)),
        Err(e) => Err(e),
    }
}

/// The body of a `ConstantValue` attribute: a pool index, which must name
/// a constant that a field can have.
pub open spec fn spec_constant_value_body(
    b: Seq<u8>,
    pos: int,
    end: int,
    name_index: u16,
    length: u32,
    pool: Seq<CpInfoView>,
) -> Decoded<AttributeView> {
    match spec_u16(b, pos, end) {
        Err(e) => Err(e),
        Ok((constant_value_index, p)) => match spec_constant_value(pool, constant_value_index, p as u64) {
            Err(e) => Err(e),
            Ok(_) => Ok(
                (
                    AttributeView::ConstantValue {
                        attribute_name_index: name_index,
                        attribute_length: length,
                        constant_value_index,
                    },
                    p,
                ),
            ),
        },
    }
}

/// The body of a `Module` attribute: three fixed fields, then the tables
/// of what the module requires, exports, opens, uses and provides.
pub open spec fn spec_module_body(b: Seq<u8>, pos: int, end: int, name_index: u16, length: u32) -> Decoded<
    AttributeView,
> {
    if !fits(pos, end, 6) {
        Err(eof(pos))
    } else {
        match spec_counted::<ModuleRequirement>(b, pos + 6, end) {
            Err(e) => Err(e),
            Ok(((requires_count, requirements), p1)) => match spec_counted::<ModuleExport>(b, p1, end) {
                Err(e) => Err(e),
                Ok(((exports_count, exports), p2)) => match spec_counted::<ModuleOpens>(b, p2, end) {
                    Err(e) => Err(e),
                    Ok(((opens_count, opens), p3)) => match spec_counted::<u16>(b, p3, end) {
                        Err(e) => Err(e),
                        Ok(((uses_count, uses_index), p4)) => match spec_counted::<ModuleProvides>(
                            b,
                            p4,
                            end,
                        ) {
                            Err(e) => Err(e),
                            Ok(((provides_count, provides), p5)) => Ok(
                                (
                                    AttributeView::Module {
                                        attribute_name_index: name_index,
                                        attribute_length: length,
                                        module_name_index: be16(b, pos),
                                        module_flags: be16(b, pos + 2),
                                        module_version_index: be16(b, pos + 4),
                                        requires_count,
                                        requirements,
                                        exports_count,
                                        exports,
                                        opens_count,
                                        opens,
                                        uses_count,
                                        uses_index,
                                        provides_count,
                                        provides,
                                    },
                                    p5,
                                ),
                            ),
                        },
                    },
                },
            },
        }
    }
}

/// The body of an attribute of a kind that holds no attributes of its own,
/// read from `pos` in the window that ends at `end`.
#[verifier::opaque]
pub open spec fn spec_flat_body(
    b: Seq<u8>,
    pos: int,
    end: int,
    kind: AttributeKind,
    name_index: u16,
    length: u32,
    pool: Seq<CpInfoView>,
) -> Decoded<AttributeView>
    recommends
        !(kind is Code),
        !(kind is Record),
{
    match kind {
        AttributeKind::ConstantValue => spec_constant_value_body(b, pos, end, name_index, length, pool),
        AttributeKind::SourceDebugExtension => if pos <= end {
            Ok(
                (
                    AttributeView::SourceDebugExtension {
                        attribute_name_index: name_index,
                        attribute_length: length,
                        debug_extension: b.subrange(pos, end),
                    },
                    end,
                ),
            )
        } else {
            Err(eof(pos))
        },
        AttributeKind::AnnotationDefault => match spec_element_value(b, pos, end) {
            Err(e) => Err(e),
            Ok((default_value, p)) => Ok(
                (
                    AttributeView::AnnotationDefault {
                        attribute_name_index: name_index,
                        attribute_length: length,
                        default_value,
                    },
                    p,
                ),
            ),
        },
        AttributeKind::Module => spec_module_body(b, pos, end, name_index, length),
        AttributeKind::StackMapTable => match spec_counted::<StackMapFrame>(b, pos, end) {
            Err(e) => Err(e),
            Ok(((number_of_entries, entries), p)) => Ok(
                (
                    AttributeView::StackMapTable {
                        attribute_name_index: name_index,
                        attribute_length: length,
                        number_of_entries,
                        entries,
                    },
                    p,
                ),
            ),
        },
        AttributeKind::Exceptions => match spec_counted::<u16>(b, pos, end) {
            Err(e) => Err(e),
            Ok(((number_of_exceptions, exception_index_table), p)) => Ok(
                (
                    AttributeView::Exceptions {
                        attribute_name_index: name_index,
                        attribute_length: length,
                        number_of_exceptions,
                        exception_index_table,
                    },
                    p,
                ),
            ),
        },
        AttributeKind::InnerClasses => match spec_counted::<InnerClassInfo>(b, pos, end) {
            Err(e) => Err(e),
            Ok(((number_of_classes, classes), p)) => Ok(
                (
                    AttributeView::InnerClasses {
                        attribute_name_index: name_index,
                        attribute_length: length,
                        number_of_classes,
                        classes,
                    },
                    p,
                ),
            ),
        },
        AttributeKind::EnclosingMethod => if fits(pos, end, 4) {
            Ok(
                (
                    AttributeView::EnclosingMethod {
                        attribute_name_index: name_index,
                        attribute_length: length,
                        class_index: be16(b, pos),
                        method_index: be16(b, pos + 2),
                    },
                    pos + 4,
                ),
            )
        } else {
            Err(eof(pos))
        },
        AttributeKind::Synthetic => Ok(
            (
                AttributeView::Synthetic {
                    attribute_name_index: name_index,
                    attribute_length: length,
                },
                pos,
            ),
        ),
        AttributeKind::Signature => match spec_u16(b, pos, end) {
            Err(e) => Err(e),
            Ok((signature_index, p)) => Ok(
                (
                    AttributeView::Signature {
                        attribute_name_index: name_index,
                        attribute_length: length,
                        signature_index,
                    },
                    p,
                ),
            ),
        },
        AttributeKind::SourceFile => match spec_u16(b, pos, end) {
            Err(e) => Err(e),
            Ok((sourcefile_index, p)) => Ok(
                (
                    AttributeView::SourceFile {
                        attribute_name_index: name_index,
                        attribute_length: length,
                        sourcefile_index,
                    },
                    p,
                ),
            ),
        },
        AttributeKind::LineNumberTable => match spec_counted::<LineNumberTableEntry>(b, pos, end) {
            Err(e) => Err(e),
            Ok(((line_number_table_length, line_number_table), p)) => Ok(
                (
                    AttributeView::LineNumberTable {
                        attribute_name_index: name_index,
                        attribute_length: length,
                        line_number_table_length,
                        line_number_table,
                    },
                    p,
                ),
            ),
        },
        AttributeKind::LocalVariableTable => match spec_counted::<LocalVariableTableEntry>(b, pos, end) {
            Err(e) => Err(e),
            Ok(((local_variable_table_length, local_variable_table), p)) => Ok(
                (
                    AttributeView::LocalVariableTable {
                        attribute_name_index: name_index,
                        attribute_length: length,
                        local_variable_table_length,
                        local_variable_table,
                    },
                    p,
                ),
            ),
        },
        AttributeKind::LocalVariableTypeTable => match spec_counted::<LocalVariableTypeTableEntry>(b, pos, end) {
            Err(e) => Err(e),
            Ok(((local_variable_type_table_length, local_variable_type_table), p)) => Ok(
                (
                    AttributeView::LocalVariableTypeTable {
                        attribute_name_index: name_index,
                        attribute_length: length,
                        local_variable_type_table_length,
                        local_variable_type_table,
                    },
                    p,
                ),
            ),
        },
        AttributeKind::Deprecated => Ok(
            (
                AttributeView::Deprecated {
                    attribute_name_index: name_index,
                    attribute_length: length,
                },
                pos,
            ),
        ),
        AttributeKind::RuntimeVisibleAnnotations => match spec_counted::<Annotation>(b, pos, end) {
            Err(e) => Err(e),
            Ok(((num_annotations, annotations), p)) => Ok(
                (
                    AttributeView::RuntimeVisibleAnnotations {
                        attribute_name_index: name_index,
                        attribute_length: length,
                        num_annotations,
                        annotations,
                    },
                    p,
                ),
            ),
        },
        AttributeKind::RuntimeInvisibleAnnotations => match spec_counted::<Annotation>(b, pos, end) {
            Err(e) => Err(e),
            Ok(((num_annotations, annotations), p)) => Ok(
                (
                    AttributeView::RuntimeInvisibleAnnotations {
                        attribute_name_index: name_index,
                        attribute_length: length,
                        num_annotations,
                        annotations,
                    },
                    p,
                ),
            ),
        },
        AttributeKind::RuntimeVisibleParameterAnnotations => match spec_counted8::<ParameterAnnotations>(b, pos, end) {
            Err(e) => Err(e),
            Ok(((num_parameters, parameter_annotations), p)) => Ok(
                (
                    AttributeView::RuntimeVisibleParameterAnnotations {
                        attribute_name_index: name_index,
                        attribute_length: length,
                        num_parameters,
                        parameter_annotations,
                    },
                    p,
                ),
            ),
        },
        AttributeKind::RuntimeInvisibleParameterAnnotations => match spec_counted8::<ParameterAnnotations>(b, pos, end) {
            Err(e) => Err(e),
            Ok(((num_parameters, parameter_annotations), p)) => Ok(
                (
                    AttributeView::RuntimeInvisibleParameterAnnotations {
                        attribute_name_index: name_index,
                        attribute_length: length,
                        num_parameters,
                        parameter_annotations,
                    },
                    p,
                ),
            ),
        },
        AttributeKind::RuntimeVisibleTypeAnnotations => match spec_counted::<TypeAnnotation>(b, pos, end) {
            Err(e) => Err(e),
            Ok(((num_annotations, annotations), p)) => Ok(
                (
                    AttributeView::RuntimeVisibleTypeAnnotations {
                        attribute_name_index: name_index,
                        attribute_length: length,
                        num_annotations,
                        annotations,
                    },
                    p,
                ),
            ),
        },
        AttributeKind::RuntimeInvisibleTypeAnnotations => match spec_counted::<TypeAnnotation>(b, pos, end) {
            Err(e) => Err(e),
            Ok(((num_annotations, annotations), p)) => Ok(
                (
                    AttributeView::RuntimeInvisibleTypeAnnotations {
                        attribute_name_index: name_index,
                        attribute_length: length,
                        num_annotations,
                        annotations,
                    },
                    p,
                ),
            ),
        },
        AttributeKind::BootstrapMethods => match spec_counted::<BootstrapMethod>(b, pos, end) {
            Err(e) => Err(e),
            Ok(((num_bootstrap_methods, bootstrap_methods), p)) => Ok(
                (
                    AttributeView::BootstrapMethods {
                        attribute_name_index: name_index,
                        attribute_length: length,
                        num_bootstrap_methods,
                        bootstrap_methods,
                    },
                    p,
                ),
            ),
        },
        AttributeKind::MethodParameters => match spec_counted8::<MethodParameter>(b, pos, end) {
            Err(e) => Err(e),
            Ok(((parameters_count, parameters), p)) => Ok(
                (
                    AttributeView::MethodParameters {
                        attribute_name_index: name_index,
                        attribute_length: length,
                        parameters_count,
                        parameters,
                    },
                    p,
                ),
            ),
        },
        AttributeKind::ModulePackages => match spec_counted::<u16>(b, pos, end) {
            Err(e) => Err(e),
            Ok(((package_count, package_index), p)) => Ok(
                (
                    AttributeView::ModulePackages {
                        attribute_name_index: name_index,
                        attribute_length: length,
                        package_count,
                        package_index,
                    },
                    p,
                ),
            ),
        },
        AttributeKind::ModuleMainClass => match spec_u16(b, pos, end) {
            Err(e) => Err(e),
            Ok((main_class_index, p)) => Ok(
                (
                    AttributeView::ModuleMainClass {
                        attribute_name_index: name_index,
                        attribute_length: length,
                        main_class_index,
                    },
                    p,
                ),
            ),
        },
        AttributeKind::NestHost => match spec_u16(b, pos, end) {
            Err(e) => Err(e),
            Ok((host_class_index, p)) => Ok(
                (
                    AttributeView::NestHost {
                        attribute_name_index: name_index,
                        attribute_length: length,
                        host_class_index,
                    },
                    p,
                ),
            ),
        },
        AttributeKind::NestMembers => match spec_counted::<u16>(b, pos, end) {
            Err(e) => Err(e),
            Ok(((number_of_classes, classes), p)) => Ok(
                (
                    AttributeView::NestMembers {
                        attribute_name_index: name_index,
                        attribute_length: length,
                        number_of_classes,
                        classes,
                    },
                    p,
                ),
            ),
        },
        AttributeKind::PermittedSubclasses => match spec_counted::<u16>(b, pos, end) {
            Err(e) => Err(e),
            Ok(((number_of_classes, classes), p)) => Ok(
                (
                    AttributeView::PermittedSubclasses {
                        attribute_name_index: name_index,
                        attribute_length: length,
                        number_of_classes,
                        classes,
                    },
                    p,
                ),
            ),
        },
        _ => if pos <= end {
            Ok(
                (
                    AttributeView::Unknown {
                        attribute_name_index: name_index,
                        attribute_length: length,
                        info: b.subrange(pos, end),
                    },
                    end,
                ),
            )
        } else {
            Err(eof(pos))
        },
    }
}

/// What a `Code` attribute holds before its own attributes.
pub struct CodeHead {
    pub max_stack: u16,
    pub max_locals: u16,
    pub code_length: u32,
    pub code: Seq<u8>,
    pub exception_table_length: u16,
    pub exception_table: Seq<ExceptionTable>,
    pub attributes_count: u16,
}

/// The start of the body of a `Code` attribute: the stack and locals
/// sizes and the code length, read together; the code, kept as raw bytes;
/// the counted table of handlers; and the count of the attributes that
/// follow.
pub open spec fn spec_code_head(b: Seq<u8>, pos: int, end: int) -> Decoded<CodeHead> {
    if !fits(pos, end, 8) {
        Err(eof(pos))
    } else {
        match spec_fixed(b, pos + 8, end, be32(b, pos + 4) as nat) {
            Err(e) => Err(e),
            Ok((code, p1)) => match spec_counted::<ExceptionTable>(b, p1, end) {
                Err(e) => Err(e),
                Ok(((exception_table_length, exception_table), p2)) => match spec_u16(b, p2, end) {
                    Err(e) => Err(e),
                    Ok((attributes_count, p3)) => Ok(
                        (
                            CodeHead {
                                max_stack: be16(b, pos),
                                max_locals: be16(b, pos + 2),
                                code_length: be32(b, pos + 4),
                                code,
                                exception_table_length,
                                exception_table,
                                attributes_count,
                            },
                            p3,
                        ),
                    ),
                },
            },
        }
    }
}

/// The start of a `Code` body that decodes ends inside the window, after
/// the offset at which it began.
pub proof fn lemma_code_head_forward(b: Seq<u8>, pos: int, end: int)
    requires
        pos <= end,
    ensures
        spec_code_head(b, pos, end) matches Ok((head, p)) ==> pos < p <= end,
{
    if fits(pos, end, 8) {
        match spec_fixed(b, pos + 8, end, be32(b, pos + 4) as nat) {
            Ok((code, p1)) => lemma_counted_forward::<ExceptionTable>(b, p1, end),
            Err(e) => {},
        }
    }
}

/// The start of a `Code` body that decodes holds as many bytes of code and
/// as many handlers as it says.
pub proof fn lemma_code_head_counted(b: Seq<u8>, pos: int, end: int)
    requires
        0 <= pos <= end <= b.len(),
    ensures
        spec_code_head(b, pos, end) matches Ok((head, p)) ==> head.code.len() == head.code_length
            && head.exception_table.len() == head.exception_table_length,
{
    if fits(pos, end, 8) {
        match spec_fixed(b, pos + 8, end, be32(b, pos + 4) as nat) {
            Ok((code, p1)) => lemma_counted_len::<ExceptionTable>(b, p1, end),
            Err(e) => {},
        }
    }
}

/// The attribute at `pos`: the six bytes of its header, then its body in a
/// window of the declared length. The name is resolved before the body is
/// looked at, with the offset of the body for the error.
pub open spec fn spec_attribute(b: Seq<u8>, pos: int, end: int, pool: Seq<CpInfoView>) -> Decoded<
    AttributeView,
>
    decreases end - pos, 1int, 0nat,
{
    if !fits(pos, end, 6) {
        Err(eof(pos))
    } else {
        let name_index = be16(b, pos);
        let length = be32(b, pos + 2);
        let body = pos + 6;
        match spec_resolve_utf8(pool, name_index, body as u64) {
            Err(e) => Err(e),
            Ok(name) => if !fits(body, end, length as int) {
                Err(eof(body))
            } else {
                in_window(
                    spec_body(b, body, body + length, kind_of(name), name_index, length, pool),
                    name_index,
                    length,
                    body + length,
                )
            },
        }
    }
}

/// The body of an attribute of kind `kind`, read from `pos` in the window
/// that ends at `end`. `Code` and `Record` hold attributes of their own.
pub open spec fn spec_body(
    b: Seq<u8>,
    pos: int,
    end: int,
    kind: AttributeKind,
    name_index: u16,
    length: u32,
    pool: Seq<CpInfoView>,
) -> Decoded<AttributeView>
    decreases end - pos, 0int, 0nat,
{
    match kind {
        AttributeKind::Code => match spec_code_head(b, pos, end) {
            Err(e) => Err(e),
            Ok((head, p)) => if !(pos < p <= end) {
                Err(eof(pos))
            } else {
                match spec_attributes(b, p, end, head.attributes_count as nat, Seq::empty(), pool) {
                    Err(e) => Err(e),
                    Ok((attributes, q)) => Ok(
                        (
                            AttributeView::Code {
                                attribute_name_index: name_index,
                                attribute_length: length,
                                max_stack: head.max_stack,
                                max_locals: head.max_locals,
                                code_length: head.code_length,
                                code: head.code,
                                exception_table_length: head.exception_table_length,
                                exception_table: head.exception_table,
                                attributes_count: head.attributes_count,
                                attributes,
                            },
                            q,
                        ),
                    ),
                }
            },
        },
        AttributeKind::Record => match spec_u16(b, pos, end) {
            Err(e) => Err(e),
            Ok((component_count, p)) => match spec_components(
                b,
                p,
                end,
                component_count as nat,
                Seq::empty(),
                pool,
            ) {
                Err(e) => Err(e),
                Ok((components, q)) => Ok(
                    (
                        AttributeView::Record {
                            attribute_name_index: name_index,
                            attribute_length: length,
                            component_count,
                            components,
                        },
                        q,
                    ),
                ),
            },
        },
        _ => spec_flat_body(b, pos, end, kind, name_index, length, pool),
    }
}

/// `n` attributes one after another from `pos`, appended to `acc`. Every
/// attribute takes at least its header, so the offset always moves
/// forward.
pub open spec fn spec_attributes(
    b: Seq<u8>,
    pos: int,
    end: int,
    n: nat,
    acc: Seq<AttributeView>,
    pool: Seq<CpInfoView>,
) -> Decoded<Seq<AttributeView>>
    decreases end - pos, 2int, n,
{
    if n == 0 {
        Ok((acc, pos))
    } else {
        match spec_attribute(b, pos, end, pool) {
            Err(e) => Err(e),
            Ok((a, p)) => if pos < p <= end {
                spec_attributes(b, p, end, (n - 1) as nat, acc.push(a), pool)
            } else {
                Err(eof(pos))
            },
        }
    }
}

/// `n` record components one after another from `pos`, appended to `acc`:
/// each is a name index, a descriptor index, an attribute count and the
/// attributes.
pub open spec fn spec_components(
    b: Seq<u8>,
    pos: int,
    end: int,
    n: nat,
    acc: Seq<RecordComponentInfoView>,
    pool: Seq<CpInfoView>,
) -> Decoded<Seq<RecordComponentInfoView>>
    decreases end - pos, 3int, n,
{
    if n == 0 {
        Ok((acc, pos))
    } else if !fits(pos, end, 6) {
        Err(eof(pos))
    } else {
        match spec_attributes(b, pos + 6, end, be16(b, pos + 4) as nat, Seq::empty(), pool) {
            Err(e) => Err(e),
            Ok((attributes, p)) => if pos < p <= end {
                spec_components(
                    b,
                    p,
                    end,
                    (n - 1) as nat,
                    acc.push(
                        RecordComponentInfoView {
                            name_index: be16(b, pos),
                            descriptor_index: be16(b, pos + 2),
                            attributes_count: be16(b, pos + 4),
                            attributes,
                        },
                    ),
                    pool,
                )
            } else {
                Err(eof(pos))
            },
        }
    }
}

/// An attribute that decodes ends where its declared length says, inside
/// the window and after the offset at which it began.
pub proof fn lemma_attribute_forward(b: Seq<u8>, pos: int, end: int, pool: Seq<CpInfoView>)
    ensures
        spec_attribute(b, pos, end, pool) matches Ok((a, p)) ==> p == pos + 6 + be32(b, pos + 2) && pos
            < p <= end,
{
}

/// A run of attributes that decodes ends inside the window, at or after
/// the offset at which it began.
pub proof fn lemma_attributes_forward(
    b: Seq<u8>,
    pos: int,
    end: int,
    n: nat,
    acc: Seq<AttributeView>,
    pool: Seq<CpInfoView>,
)
    requires
        pos <= end,
    ensures
        spec_attributes(b, pos, end, n, acc, pool) matches Ok((v, p)) ==> pos <= p <= end,
    decreases n,
{
    if n > 0 {
        match spec_attribute(b, pos, end, pool) {
            Ok((a, p)) => {
                if pos < p <= end {
                    lemma_attributes_forward(b, p, end, (n - 1) as nat, acc.push(a), pool);
                }
            },
            Err(e) => {},
        }
    }
}

/// The body of a `Module` attribute that decodes has tables as long as
/// their counts say.
pub proof fn lemma_module_body_counted(b: Seq<u8>, pos: int, end: int, name_index: u16, length: u32)
    ensures
        spec_module_body(b, pos, end, name_index, length) matches Ok((a, p)) ==> attribute_counted(a),
{
    if fits(pos, end, 6) {
        lemma_counted_len::<ModuleRequirement>(b, pos + 6, end);
        match spec_counted::<ModuleRequirement>(b, pos + 6, end) {
            Ok((_, p1)) => {
                lemma_counted_len::<ModuleExport>(b, p1, end);
                match spec_counted::<ModuleExport>(b, p1, end) {
                    Ok((_, p2)) => {
                        lemma_counted_len::<ModuleOpens>(b, p2, end);
                        match spec_counted::<ModuleOpens>(b, p2, end) {
                            Ok((_, p3)) => {
                                lemma_counted_len::<u16>(b, p3, end);
                                match spec_counted::<u16>(b, p3, end) {
                                    Ok((_, p4)) => lemma_counted_len::<ModuleProvides>(b, p4, end),
                                    Err(e) => {},
                                }
                            },
                            Err(e) => {},
                        }
                    },
                    Err(e) => {},
                }
            },
            Err(e) => {},
        }
    }
}

/// Whether the outcome `r` of decoding, if it is an attribute, has counts
/// that are the lengths of its tables.
pub open spec fn is_counted(r: Decoded<AttributeView>) -> bool {
    r matches Ok((a, p)) ==> attribute_counted(a)
}

/// The body of an attribute that holds no attributes of its own, decoded
/// from a window of its declared length, has counts that are the lengths
/// of its tables.
pub proof fn lemma_flat_body_counted(
    b: Seq<u8>,
    pos: int,
    end: int,
    kind: AttributeKind,
    name_index: u16,
    length: u32,
    pool: Seq<CpInfoView>,
)
    requires
        0 <= pos <= end <= b.len(),
        end - pos == length,
        !(kind is Code),
        !(kind is Record),
    ensures
        is_counted(spec_flat_body(b, pos, end, kind, name_index, length, pool)),
{
    match kind {
        AttributeKind::StackMapTable => {
            assert(is_counted(
                spec_flat_body(b, pos, end, AttributeKind::StackMapTable, name_index, length, pool),
            )) by {
                reveal(spec_flat_body);
                lemma_counted_len::<StackMapFrame>(b, pos, end);
            }
        },
        AttributeKind::InnerClasses => {
            assert(is_counted(
                spec_flat_body(b, pos, end, AttributeKind::InnerClasses, name_index, length, pool),
            )) by {
                reveal(spec_flat_body);
                lemma_counted_len::<InnerClassInfo>(b, pos, end);
            }
        },
        AttributeKind::LineNumberTable => {
            assert(is_counted(
                spec_flat_body(b, pos, end, AttributeKind::LineNumberTable, name_index, length, pool),
            )) by {
                reveal(spec_flat_body);
                lemma_counted_len::<LineNumberTableEntry>(b, pos, end);
            }
        },
        AttributeKind::LocalVariableTable => {
            assert(is_counted(
                spec_flat_body(b, pos, end, AttributeKind::LocalVariableTable, name_index, length, pool),
            )) by {
                reveal(spec_flat_body);
                lemma_counted_len::<LocalVariableTableEntry>(b, pos, end);
            }
        },
        AttributeKind::LocalVariableTypeTable => {
            assert(is_counted(
                spec_flat_body(b, pos, end, AttributeKind::LocalVariableTypeTable, name_index, length, pool),
            )) by {
                reveal(spec_flat_body);
                lemma_counted_len::<LocalVariableTypeTableEntry>(b, pos, end);
            }
        },
        AttributeKind::RuntimeVisibleAnnotations => {
            assert(is_counted(
                spec_flat_body(b, pos, end, AttributeKind::RuntimeVisibleAnnotations, name_index, length, pool),
            )) by {
                reveal(spec_flat_body);
                lemma_counted_len::<Annotation>(b, pos, end);
            }
        },
        AttributeKind::RuntimeInvisibleAnnotations => {
            assert(is_counted(
                spec_flat_body(b, pos, end, AttributeKind::RuntimeInvisibleAnnotations, name_index, length, pool),
            )) by {
                reveal(spec_flat_body);
                lemma_counted_len::<Annotation>(b, pos, end);
            }
        },
        AttributeKind::RuntimeVisibleParameterAnnotations => {
            assert(is_counted(
                spec_flat_body(b, pos, end, AttributeKind::RuntimeVisibleParameterAnnotations, name_index, length, pool),
            )) by {
                reveal(spec_flat_body);
                lemma_counted_len::<ParameterAnnotations>(b, pos, end);
            }
        },
        AttributeKind::RuntimeInvisibleParameterAnnotations => {
            assert(is_counted(
                spec_flat_body(b, pos, end, AttributeKind::RuntimeInvisibleParameterAnnotations, name_index, length, pool),
            )) by {
                reveal(spec_flat_body);
                lemma_counted_len::<ParameterAnnotations>(b, pos, end);
            }
        },
        AttributeKind::RuntimeVisibleTypeAnnotations => {
            assert(is_counted(
                spec_flat_body(b, pos, end, AttributeKind::RuntimeVisibleTypeAnnotations, name_index, length, pool),
            )) by {
                reveal(spec_flat_body);
                lemma_counted_len::<TypeAnnotation>(b, pos, end);
            }
        },
        AttributeKind::RuntimeInvisibleTypeAnnotations => {
            assert(is_counted(
                spec_flat_body(b, pos, end, AttributeKind::RuntimeInvisibleTypeAnnotations, name_index, length, pool),
            )) by {
                reveal(spec_flat_body);
                lemma_counted_len::<TypeAnnotation>(b, pos, end);
            }
        },
        AttributeKind::AnnotationDefault => {
            assert(is_counted(
                spec_flat_body(b, pos, end, AttributeKind::AnnotationDefault, name_index, length, pool),
            )) by {
                reveal(spec_flat_body);
                lemma_element_value_counted(b, pos, end);
            }
        },
        AttributeKind::BootstrapMethods => {
            assert(is_counted(
                spec_flat_body(b, pos, end, AttributeKind::BootstrapMethods, name_index, length, pool),
            )) by {
                reveal(spec_flat_body);
                lemma_counted_len::<BootstrapMethod>(b, pos, end);
            }
        },
        AttributeKind::MethodParameters => {
            assert(is_counted(
                spec_flat_body(b, pos, end, AttributeKind::MethodParameters, name_index, length, pool),
            )) by {
                reveal(spec_flat_body);
                lemma_counted_len::<MethodParameter>(b, pos, end);
            }
        },
        AttributeKind::Module => {
            assert(is_counted(
                spec_flat_body(b, pos, end, AttributeKind::Module, name_index, length, pool),
            )) by {
                reveal(spec_flat_body);
                lemma_module_body_counted(b, pos, end, name_index, length);
            }
        },
        AttributeKind::Exceptions => {
            assert(is_counted(
                spec_flat_body(b, pos, end, AttributeKind::Exceptions, name_index, length, pool),
            )) by {
                reveal(spec_flat_body);
                lemma_counted_len::<u16>(b, pos, end);
            }
        },
        AttributeKind::ModulePackages => {
            assert(is_counted(
                spec_flat_body(b, pos, end, AttributeKind::ModulePackages, name_index, length, pool),
            )) by {
                reveal(spec_flat_body);
                lemma_counted_len::<u16>(b, pos, end);
            }
        },
        AttributeKind::NestMembers => {
            assert(is_counted(
                spec_flat_body(b, pos, end, AttributeKind::NestMembers, name_index, length, pool),
            )) by {
                reveal(spec_flat_body);
                lemma_counted_len::<u16>(b, pos, end);
            }
        },
        AttributeKind::PermittedSubclasses => {
            assert(is_counted(
                spec_flat_body(b, pos, end, AttributeKind::PermittedSubclasses, name_index, length, pool),
            )) by {
                reveal(spec_flat_body);
                lemma_counted_len::<u16>(b, pos, end);
            }
        },
        AttributeKind::ConstantValue => {
            assert(is_counted(
                spec_flat_body(b, pos, end, AttributeKind::ConstantValue, name_index, length, pool),
            )) by {
                reveal(spec_flat_body);
            }
        },
        AttributeKind::EnclosingMethod => {
            assert(is_counted(
                spec_flat_body(b, pos, end, AttributeKind::EnclosingMethod, name_index, length, pool),
            )) by {
                reveal(spec_flat_body);
            }
        },
        AttributeKind::Synthetic => {
            assert(is_counted(
                spec_flat_body(b, pos, end, AttributeKind::Synthetic, name_index, length, pool),
            )) by {
                reveal(spec_flat_body);
            }
        },
        AttributeKind::Signature => {
            assert(is_counted(
                spec_flat_body(b, pos, end, AttributeKind::Signature, name_index, length, pool),
            )) by {
                reveal(spec_flat_body);
            }
        },
        AttributeKind::SourceFile => {
            assert(is_counted(
                spec_flat_body(b, pos, end, AttributeKind::SourceFile, name_index, length, pool),
            )) by {
                reveal(spec_flat_body);
            }
        },
        AttributeKind::SourceDebugExtension => {
            assert(is_counted(
                spec_flat_body(b, pos, end, AttributeKind::SourceDebugExtension, name_index, length, pool),
            )) by {
                reveal(spec_flat_body);
            }
        },
        AttributeKind::Deprecated => {
            assert(is_counted(
                spec_flat_body(b, pos, end, AttributeKind::Deprecated, name_index, length, pool),
            )) by {
                reveal(spec_flat_body);
            }
        },
        AttributeKind::ModuleMainClass => {
            assert(is_counted(
                spec_flat_body(b, pos, end, AttributeKind::ModuleMainClass, name_index, length, pool),
            )) by {
                reveal(spec_flat_body);
            }
        },
        AttributeKind::NestHost => {
            assert(is_counted(
                spec_flat_body(b, pos, end, AttributeKind::NestHost, name_index, length, pool),
            )) by {
                reveal(spec_flat_body);
            }
        },
        AttributeKind::Unknown => {
            assert(is_counted(
                spec_flat_body(b, pos, end, AttributeKind::Unknown, name_index, length, pool),
            )) by {
                reveal(spec_flat_body);
            }
        },
        _ => {},
    }
}

/// An attribute that decodes has counts that are the lengths of its
/// tables, in itself and in every attribute that it holds.
pub proof fn lemma_attribute_counted(b: Seq<u8>, pos: int, end: int, pool: Seq<CpInfoView>)
    requires
        0 <= pos,
        end <= b.len(),
    ensures
        spec_attribute(b, pos, end, pool) matches Ok((a, p)) ==> attribute_counted(a),
    decreases end - pos, 1int, 0nat,
{
    if fits(pos, end, 6) {
        let length = be32(b, pos + 2);
        match spec_resolve_utf8(pool, be16(b, pos), (pos + 6) as u64) {
            Ok(name) => {
                if fits(pos + 6, end, length as int) {
                    lemma_body_counted(
                        b,
                        pos + 6,
                        pos + 6 + length,
                        kind_of(name),
                        be16(b, pos),
                        length,
                        pool,
                    );
                }
            },
            Err(e) => {},
        }
    }
}

/// The body of an attribute, decoded from a window of its declared length,
/// has counts that are the lengths of its tables.
pub proof fn lemma_body_counted(
    b: Seq<u8>,
    pos: int,
    end: int,
    kind: AttributeKind,
    name_index: u16,
    length: u32,
    pool: Seq<CpInfoView>,
)
    requires
        0 <= pos <= end <= b.len(),
        end - pos == length,
    ensures
        spec_body(b, pos, end, kind, name_index, length, pool) matches Ok((a, p)) ==> attribute_counted(
            a,
        ),
    decreases end - pos, 0int, 0nat,
{
    match kind {
        AttributeKind::Code => {
            lemma_code_head_forward(b, pos, end);
            lemma_code_head_counted(b, pos, end);
            match spec_code_head(b, pos, end) {
                Ok((head, p)) => {
                    if pos < p <= end {
                        lemma_attributes_counted(
                            b,
                            p,
                            end,
                            head.attributes_count as nat,
                            Seq::empty(),
                            pool,
                        );
                    }
                },
                Err(e) => {},
            }
        },
        AttributeKind::Record => {
            if fits(pos, end, 2) {
                lemma_components_counted(b, pos + 2, end, be16(b, pos) as nat, Seq::empty(), pool);
            }
        },
        _ => {
            lemma_flat_body_counted(b, pos, end, kind, name_index, length, pool);
        },
    }
}

/// A run of `n` attributes that decodes adds `n` attributes to `acc`, each
/// of them counted.
pub proof fn lemma_attributes_counted(
    b: Seq<u8>,
    pos: int,
    end: int,
    n: nat,
    acc: Seq<AttributeView>,
    pool: Seq<CpInfoView>,
)
    requires
        0 <= pos <= end <= b.len(),
        all_attributes_counted(acc),
    ensures
        spec_attributes(b, pos, end, n, acc, pool) matches Ok((v, p)) ==> v.len() == acc.len() + n
            && all_attributes_counted(v),
    decreases end - pos, 2int, n,
{
    if n > 0 {
        lemma_attribute_counted(b, pos, end, pool);
        match spec_attribute(b, pos, end, pool) {
            Ok((a, p)) => {
                if pos < p <= end {
                    assert forall|i: int| 0 <= i < acc.push(a).len() implies attribute_counted(
                        #[trigger] acc.push(a)[i],
                    ) by {
                        if i < acc.len() {
                            assert(attribute_counted(acc[i]));
                        }
                    }
                    lemma_attributes_counted(b, p, end, (n - 1) as nat, acc.push(a), pool);
                }
            },
            Err(e) => {},
        }
    }
}

/// A run of `n` record components that decodes adds `n` components to
/// `acc`, each of them counted.
pub proof fn lemma_components_counted(
    b: Seq<u8>,
    pos: int,
    end: int,
    n: nat,
    acc: Seq<RecordComponentInfoView>,
    pool: Seq<CpInfoView>,
)
    requires
        0 <= pos <= end <= b.len(),
        all_components_counted(acc),
    ensures
        spec_components(b, pos, end, n, acc, pool) matches Ok((v, p)) ==> v.len() == acc.len() + n
            && all_components_counted(v),
    decreases end - pos, 3int, n,
{
    if n > 0 && fits(pos, end, 6) {
        lemma_attributes_counted(b, pos + 6, end, be16(b, pos + 4) as nat, Seq::empty(), pool);
        match spec_attributes(b, pos + 6, end, be16(b, pos + 4) as nat, Seq::empty(), pool) {
            Ok((attributes, p)) => {
                if pos < p <= end {
                    let c = RecordComponentInfoView {
                        name_index: be16(b, pos),
                        descriptor_index: be16(b, pos + 2),
                        attributes_count: be16(b, pos + 4),
                        attributes,
                    };
                    assert forall|i: int| 0 <= i < acc.push(c).len() implies component_counted(
                        #[trigger] acc.push(c)[i],
                    ) by {
                        if i < acc.len() {
                            assert(component_counted(acc[i]));
                        }
                    }
                    lemma_components_counted(b, p, end, (n - 1) as nat, acc.push(c), pool);
                }
            },
            Err(e) => {},
        }
    }
}

/// A run of record components that decodes ends inside the window, at or
/// after the offset at which it began.
pub proof fn lemma_components_forward(
    b: Seq<u8>,
    pos: int,
    end: int,
    n: nat,
    acc: Seq<RecordComponentInfoView>,
    pool: Seq<CpInfoView>,
)
    requires
        pos <= end,
    ensures
        spec_components(b, pos, end, n, acc, pool) matches Ok((v, p)) ==> pos <= p <= end,
    decreases n,
{
    if n > 0 && fits(pos, end, 6) {
        match spec_attributes(b, pos + 6, end, be16(b, pos + 4) as nat, Seq::empty(), pool) {
            Ok((attributes, p)) => {
                if pos < p <= end {
                    lemma_components_forward(
                        b,
                        p,
                        end,
                        (n - 1) as nat,
                        acc.push(
                            RecordComponentInfoView {
                                name_index: be16(b, pos),
                                descriptor_index: be16(b, pos + 2),
                                attributes_count: be16(b, pos + 4),
                                attributes,
                            },
                        ),
                        pool,
                    );
                }
            },
            Err(e) => {},
        }
    }
}

/// A table of `n` attributes that starts at `pos`.
pub open spec fn spec_attribute_table(b: Seq<u8>, pos: int, end: int, n: nat, pool: Seq<CpInfoView>) -> Decoded<
    Seq<AttributeView>,
> {
    spec_attributes(b, pos, end, n, Seq::empty(), pool)
}

/// Decodes the body of a `Module` attribute.
fn read_module_body(cur: &mut Cursor, name_index: u16, length: u32) -> (r: Result<Attribute, DecompileError>)
    requires
        old(cur).inv(),
    ensures
        final(cur).decoded(
            *old(cur),
            r,
            spec_module_body(old(cur).bytes@, old(cur).pos as int, old(cur).end as int, name_index, length),
        ),
{
    cur.need(6)?;
    let module_name_index = cur.take_u16();
    let module_flags = cur.take_u16();
    let module_version_index = cur.take_u16();
    let (requires_count, requirements) = read_counted::<ModuleRequirement>(cur)?;
    let (exports_count, exports) = read_counted::<ModuleExport>(cur)?;
    let (opens_count, opens) = read_counted::<ModuleOpens>(cur)?;
    let (uses_count, uses_index) = read_counted_u16(cur)?;
    let (provides_count, provides) = read_counted::<ModuleProvides>(cur)?;
    Ok(
        Attribute::Module {
            attribute_name_index: name_index,
            attribute_length: length,
            module_name_index,
            module_flags,
            module_version_index,
            requires_count,
            requirements,
            exports_count,
            exports,
            opens_count,
            opens,
            uses_count,
            uses_index,
            provides_count,
            provides,
        },
    )
}

/// Decodes the body of an attribute of a kind that holds no attributes of
/// its own.
fn read_flat_body(
    cur: &mut Cursor,
    kind: AttributeKind,
    name_index: u16,
    length: u32,
    pool: &ConstantPool,
) -> (r: Result<Attribute, DecompileError>)
    requires
        old(cur).inv(),
        !(kind is Code),
        !(kind is Record),
    ensures
        final(cur).decoded(
            *old(cur),
            r,
            spec_flat_body(
                old(cur).bytes@,
                old(cur).pos as int,
                old(cur).end as int,
                kind,
                name_index,
                length,
                pool@,
            ),
        ),
{
    reveal(spec_flat_body);
    match kind {
        AttributeKind::ConstantValue => {
            let constant_value_index = cur.read_u16()?;
            let _ = constant_value(pool, constant_value_index, cur.position())?;
            Ok(
                Attribute::ConstantValue {
                    attribute_name_index: name_index,
                    attribute_length: length,
                    constant_value_index,
                },
            )
        },
        AttributeKind::SourceDebugExtension => {
            let debug_extension = cur.read_fixed(cur.remaining())?;
            Ok(
                Attribute::SourceDebugExtension {
                    attribute_name_index: name_index,
                    attribute_length: length,
                    debug_extension,
                },
            )
        },
        AttributeKind::AnnotationDefault => {
            let default_value = read_element_value(cur)?;
            Ok(
                Attribute::AnnotationDefault {
                    attribute_name_index: name_index,
                    attribute_length: length,
                    default_value,
                },
            )
        },
        AttributeKind::Module => read_module_body(cur, name_index, length),
        AttributeKind::StackMapTable => {
            let (number_of_entries, entries) = read_counted::<StackMapFrame>(cur)?;
            Ok(
                Attribute::StackMapTable {
                    attribute_name_index: name_index,
                    attribute_length: length,
                    number_of_entries,
                    entries,
                },
            )
        },
        AttributeKind::Exceptions => {
            let (number_of_exceptions, exception_index_table) = read_counted_u16(cur)?;
            Ok(
                Attribute::Exceptions {
                    attribute_name_index: name_index,
                    attribute_length: length,
                    number_of_exceptions,
                    exception_index_table,
                },
            )
        },
        AttributeKind::InnerClasses => {
            let (number_of_classes, classes) = read_counted::<InnerClassInfo>(cur)?;
            Ok(
                Attribute::InnerClasses {
                    attribute_name_index: name_index,
                    attribute_length: length,
                    number_of_classes,
                    classes,
                },
            )
        },
        AttributeKind::EnclosingMethod => {
            cur.need(4)?;
            let class_index = cur.take_u16();
            let method_index = cur.take_u16();
            Ok(
                Attribute::EnclosingMethod {
                    attribute_name_index: name_index,
                    attribute_length: length,
                    class_index,
                    method_index,
                },
            )
        },
        AttributeKind::Synthetic => Ok(
            Attribute::Synthetic { attribute_name_index: name_index, attribute_length: length },
        ),
        AttributeKind::Signature => {
            let signature_index = cur.read_u16()?;
            Ok(
                Attribute::Signature {
                    attribute_name_index: name_index,
                    attribute_length: length,
                    signature_index,
                },
            )
        },
        AttributeKind::SourceFile => {
            let sourcefile_index = cur.read_u16()?;
            Ok(
                Attribute::SourceFile {
                    attribute_name_index: name_index,
                    attribute_length: length,
                    sourcefile_index,
                },
            )
        },
        AttributeKind::LineNumberTable => {
            let (line_number_table_length, line_number_table) = read_counted::<LineNumberTableEntry>(cur)?;
            Ok(
                Attribute::LineNumberTable {
                    attribute_name_index: name_index,
                    attribute_length: length,
                    line_number_table_length,
                    line_number_table,
                },
            )
        },
        AttributeKind::LocalVariableTable => {
            let (local_variable_table_length, local_variable_table) = read_counted::<LocalVariableTableEntry>(cur)?;
            Ok(
                Attribute::LocalVariableTable {
                    attribute_name_index: name_index,
                    attribute_length: length,
                    local_variable_table_length,
                    local_variable_table,
                },
            )
        },
        AttributeKind::LocalVariableTypeTable => {
            let (local_variable_type_table_length, local_variable_type_table) = read_counted::<LocalVariableTypeTableEntry>(cur)?;
            Ok(
                Attribute::LocalVariableTypeTable {
                    attribute_name_index: name_index,
                    attribute_length: length,
                    local_variable_type_table_length,
                    local_variable_type_table,
                },
            )
        },
        AttributeKind::Deprecated => Ok(
            Attribute::Deprecated { attribute_name_index: name_index, attribute_length: length },
        ),
        AttributeKind::RuntimeVisibleAnnotations => {
            let (num_annotations, annotations) = read_counted::<Annotation>(cur)?;
            Ok(
                Attribute::RuntimeVisibleAnnotations {
                    attribute_name_index: name_index,
                    attribute_length: length,
                    num_annotations,
                    annotations,
                },
            )
        },
        AttributeKind::RuntimeInvisibleAnnotations => {
            let (num_annotations, annotations) = read_counted::<Annotation>(cur)?;
            Ok(
                Attribute::RuntimeInvisibleAnnotations {
                    attribute_name_index: name_index,
                    attribute_length: length,
                    num_annotations,
                    annotations,
                },
            )
        },
        AttributeKind::RuntimeVisibleParameterAnnotations => {
            let (num_parameters, parameter_annotations) = read_counted8::<ParameterAnnotations>(cur)?;
            Ok(
                Attribute::RuntimeVisibleParameterAnnotations {
                    attribute_name_index: name_index,
                    attribute_length: length,
                    num_parameters,
                    parameter_annotations,
                },
            )
        },
        AttributeKind::RuntimeInvisibleParameterAnnotations => {
            let (num_parameters, parameter_annotations) = read_counted8::<ParameterAnnotations>(cur)?;
            Ok(
                Attribute::RuntimeInvisibleParameterAnnotations {
                    attribute_name_index: name_index,
                    attribute_length: length,
                    num_parameters,
                    parameter_annotations,
                },
            )
        },
        AttributeKind::RuntimeVisibleTypeAnnotations => {
            let (num_annotations, annotations) = read_counted::<TypeAnnotation>(cur)?;
            Ok(
                Attribute::RuntimeVisibleTypeAnnotations {
                    attribute_name_index: name_index,
                    attribute_length: length,
                    num_annotations,
                    annotations,
                },
            )
        },
        AttributeKind::RuntimeInvisibleTypeAnnotations => {
            let (num_annotations, annotations) = read_counted::<TypeAnnotation>(cur)?;
            Ok(
                Attribute::RuntimeInvisibleTypeAnnotations {
                    attribute_name_index: name_index,
                    attribute_length: length,
                    num_annotations,
                    annotations,
                },
            )
        },
        AttributeKind::BootstrapMethods => {
            let (num_bootstrap_methods, bootstrap_methods) = read_counted::<BootstrapMethod>(cur)?;
            Ok(
                Attribute::BootstrapMethods {
                    attribute_name_index: name_index,
                    attribute_length: length,
                    num_bootstrap_methods,
                    bootstrap_methods,
                },
            )
        },
        AttributeKind::MethodParameters => {
            let (parameters_count, parameters) = read_counted8::<MethodParameter>(cur)?;
            Ok(
                Attribute::MethodParameters {
                    attribute_name_index: name_index,
                    attribute_length: length,
                    parameters_count,
                    parameters,
                },
            )
        },
        AttributeKind::ModulePackages => {
            let (package_count, package_index) = read_counted_u16(cur)?;
            Ok(
                Attribute::ModulePackages {
                    attribute_name_index: name_index,
                    attribute_length: length,
                    package_count,
                    package_index,
                },
            )
        },
        AttributeKind::ModuleMainClass => {
            let main_class_index = cur.read_u16()?;
            Ok(
                Attribute::ModuleMainClass {
                    attribute_name_index: name_index,
                    attribute_length: length,
                    main_class_index,
                },
            )
        },
        AttributeKind::NestHost => {
            let host_class_index = cur.read_u16()?;
            Ok(
                Attribute::NestHost {
                    attribute_name_index: name_index,
                    attribute_length: length,
                    host_class_index,
                },
            )
        },
        AttributeKind::NestMembers => {
            let (number_of_classes, classes) = read_counted_u16(cur)?;
            Ok(
                Attribute::NestMembers {
                    attribute_name_index: name_index,
                    attribute_length: length,
                    number_of_classes,
                    classes,
                },
            )
        },
        AttributeKind::PermittedSubclasses => {
            let (number_of_classes, classes) = read_counted_u16(cur)?;
            Ok(
                Attribute::PermittedSubclasses {
                    attribute_name_index: name_index,
                    attribute_length: length,
                    number_of_classes,
                    classes,
                },
            )
        },
        _ => {
            let info = cur.read_fixed(cur.remaining())?;
            Ok(Attribute::Unknown { attribute_name_index: name_index, attribute_length: length, info })
        },
    }
}

/// Decodes one attribute, header and body.
pub fn read_attribute_info(cur: &mut Cursor, pool: &ConstantPool) -> (r: Result<Attribute, DecompileError>)
    requires
        old(cur).inv(),
    ensures
        final(cur).decoded(
            *old(cur),
            r,
            spec_attribute(old(cur).bytes@, old(cur).pos as int, old(cur).end as int, pool@),
        ),
        r is Ok ==> old(cur).pos < final(cur).pos,
    decreases old(cur).end - old(cur).pos, 1int, 0nat,
{
    cur.need(6)?;
    let name_index = cur.take_u16();
    let length = cur.take_u32();
    let name = resolve_utf8_cp_entry(pool, name_index, cur.position())?;
    let kind = attribute_kind(name.as_str());
    let mut body = cur.window(length as usize)?;
    match read_body(&mut body, kind, name_index, length, pool) {
        Ok(a) => if body.remaining() == 0 {
            Ok(a)
        } else {
            Err(DecompileError::AttributeLengthMismatch(name_index, length, body.position()))
        },
        Err(DecompileError::UnexpectedEof(at)) => Err(
            DecompileError::AttributeLengthMismatch(name_index, length, at),
        ),
        Err(e) => Err(e),
    }
}

/// Decodes the body of an attribute of kind `kind` from its window.
pub fn read_body(
    cur: &mut Cursor,
    kind: AttributeKind,
    name_index: u16,
    length: u32,
    pool: &ConstantPool,
) -> (r: Result<Attribute, DecompileError>)
    requires
        old(cur).inv(),
    ensures
        final(cur).decoded(
            *old(cur),
            r,
            spec_body(
                old(cur).bytes@,
                old(cur).pos as int,
                old(cur).end as int,
                kind,
                name_index,
                length,
                pool@,
            ),
        ),
    decreases old(cur).end - old(cur).pos, 0int, 0nat,
{
    match kind {
        AttributeKind::Code => {
            cur.need(8)?;
            let max_stack = cur.take_u16();
            let max_locals = cur.take_u16();
            let code_length = cur.take_u32();
            let code = cur.read_fixed(code_length as usize)?;
            let (exception_table_length, exception_table) = read_counted::<ExceptionTable>(cur)?;
            let attributes_count = cur.read_u16()?;
            let attributes = read_attributes(cur, attributes_count as usize, pool)?;
            let a = Attribute::Code {
                attribute_name_index: name_index,
                attribute_length: length,
                max_stack,
                max_locals,
                code_length,
                code,
                exception_table_length,
                exception_table,
                attributes_count,
                attributes,
            };
            assert(a@->Code_attributes =~= views(attributes@));
            Ok(a)
        },
        AttributeKind::Record => {
            let component_count = cur.read_u16()?;
            let components = read_components(cur, component_count as usize, pool)?;
            let a = Attribute::Record {
                attribute_name_index: name_index,
                attribute_length: length,
                component_count,
                components,
            };
            assert(a@->Record_components =~= views(components@));
            Ok(a)
        },
        _ => read_flat_body(cur, kind, name_index, length, pool),
    }
}

/// Decodes a table of `n` attributes.
pub fn read_attributes(cur: &mut Cursor, n: usize, pool: &ConstantPool) -> (r: Result<
    Vec<Attribute>,
    DecompileError,
>)
    requires
        old(cur).inv(),
    ensures
        final(cur).decoded_list(
            *old(cur),
            r,
            spec_attribute_table(old(cur).bytes@, old(cur).pos as int, old(cur).end as int, n as nat, pool@),
        ),
        r is Ok ==> old(cur).pos <= final(cur).pos,
        r is Ok && n > 0 ==> old(cur).pos < final(cur).pos,
        r matches Ok(v) ==> v@.len() == n,
    decreases old(cur).end - old(cur).pos, 2int, n,
{
    let mut out: Vec<Attribute> = Vec::new();
    let mut i: usize = 0;
    assert(views(out@) =~= Seq::<AttributeView>::empty());
    while i < n
        invariant
            i <= n,
            out@.len() == i,
            cur.same_window(*old(cur)),
            old(cur).pos <= cur.pos,
            i > 0 ==> old(cur).pos < cur.pos,
            spec_attribute_table(old(cur).bytes@, old(cur).pos as int, old(cur).end as int, n as nat, pool@)
                == spec_attributes(
                cur.bytes@,
                cur.pos as int,
                cur.end as int,
                (n - i) as nat,
                views(out@),
                pool@,
            ),
        decreases n - i,
    {
        let ghost before = views(out@);
        let a = read_attribute_info(cur, pool)?;
        out.push(a);
        assert(views(out@) =~= before.push(a@));
        i = i + 1;
    }
    Ok(out)
}

/// Decodes a table of `n` record components.
pub fn read_components(cur: &mut Cursor, n: usize, pool: &ConstantPool) -> (r: Result<
    Vec<RecordComponentInfo>,
    DecompileError,
>)
    requires
        old(cur).inv(),
    ensures
        final(cur).decoded_list(
            *old(cur),
            r,
            spec_components(
                old(cur).bytes@,
                old(cur).pos as int,
                old(cur).end as int,
                n as nat,
                Seq::empty(),
                pool@,
            ),
        ),
        r is Ok ==> old(cur).pos <= final(cur).pos,
    decreases old(cur).end - old(cur).pos, 3int, n,
{
    let mut out: Vec<RecordComponentInfo> = Vec::new();
    let mut i: usize = 0;
    assert(views(out@) =~= Seq::<RecordComponentInfoView>::empty());
    while i < n
        invariant
            i <= n,
            cur.same_window(*old(cur)),
            old(cur).pos <= cur.pos,
            spec_components(
                old(cur).bytes@,
                old(cur).pos as int,
                old(cur).end as int,
                n as nat,
                Seq::empty(),
                pool@,
            ) == spec_components(
                cur.bytes@,
                cur.pos as int,
                cur.end as int,
                (n - i) as nat,
                views(out@),
                pool@,
            ),
        decreases n - i,
    {
        let ghost before = views(out@);
        cur.need(6)?;
        let name_index = cur.take_u16();
        let descriptor_index = cur.take_u16();
        let attributes_count = cur.take_u16();
        let attributes = read_attributes(cur, attributes_count as usize, pool)?;
        let c = RecordComponentInfo { name_index, descriptor_index, attributes_count, attributes };
        assert(c@.attributes =~= views(attributes@));
        out.push(c);
        assert(views(out@) =~= before.push(c@));
        i = i + 1;
    }
    Ok(out)
}

} // verus!
