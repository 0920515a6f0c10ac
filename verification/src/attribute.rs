//! Attributes: the named, length-prefixed records attached to a class, a
//! field, a method, a record component or a method body.
use vstd::prelude::*;

use crate::annotation::{
    element_value_counted, Annotation, AnnotationView, ElementValue, ElementValueView,
    ParameterAnnotations, ParameterAnnotationsView, TypeAnnotation, TypeAnnotationView,
};
use crate::cursor::views;
use crate::frames::{StackMapFrame, StackMapFrameView};
use crate::index_lists::{
    BootstrapMethod, BootstrapMethodView, ModuleExport, ModuleExportView, ModuleOpens, ModuleOpensView,
    ModuleProvides, ModuleProvidesView,
};
use crate::records::{
    ExceptionTable, InnerClassInfo, LineNumberTableEntry, LocalVariableTableEntry,
    LocalVariableTypeTableEntry, MethodParameter, ModuleRequirement,
};
use crate::table::all_counted;
use crate::text::same_text;

verus! {

/// The kinds of attribute that the decoder knows by name, and `Unknown` for
/// every other name.
#[derive(Debug, Clone, Copy, PartialEq, Eq)]
pub enum AttributeKind {
    ConstantValue,
    Code,
    StackMapTable,
    Exceptions,
    InnerClasses,
    EnclosingMethod,
    Synthetic,
    Signature,
    SourceFile,
    SourceDebugExtension,
    LineNumberTable,
    LocalVariableTable,
    LocalVariableTypeTable,
    Deprecated,
    RuntimeVisibleAnnotations,
    RuntimeInvisibleAnnotations,
    RuntimeVisibleParameterAnnotations,
    RuntimeInvisibleParameterAnnotations,
    RuntimeVisibleTypeAnnotations,
    RuntimeInvisibleTypeAnnotations,
    AnnotationDefault,
    BootstrapMethods,
    MethodParameters,
    Module,
    ModulePackages,
    ModuleMainClass,
    NestHost,
    NestMembers,
    Record,
    PermittedSubclasses,
    Unknown,
}

/// The kind that an attribute name selects. Names are compared exactly.
pub open spec fn kind_of(name: Seq<char>) -> AttributeKind {
    if name == "ConstantValue"@ {
        AttributeKind::ConstantValue
    } else if name == "Code"@ {
        AttributeKind::Code
    } else if name == "StackMapTable"@ {
        AttributeKind::StackMapTable
    } else if name == "Exceptions"@ {
        AttributeKind::Exceptions
    } else if name == "InnerClasses"@ {
        AttributeKind::InnerClasses
    } else if name == "EnclosingMethod"@ {
        AttributeKind::EnclosingMethod
    } else if name == "Synthetic"@ {
        AttributeKind::Synthetic
    } else if name == "Signature"@ {
        AttributeKind::Signature
    } else if name == "SourceFile"@ {
        AttributeKind::SourceFile
    } else if name == "SourceDebugExtension"@ {
        AttributeKind::SourceDebugExtension
    } else if name == "LineNumberTable"@ {
        AttributeKind::LineNumberTable
    } else if name == "LocalVariableTable"@ {
        AttributeKind::LocalVariableTable
    } else if name == "LocalVariableTypeTable"@ {
        AttributeKind::LocalVariableTypeTable
    } else if name == "Deprecated"@ {
        AttributeKind::Deprecated
    } else if name == "RuntimeVisibleAnnotations"@ {
        AttributeKind::RuntimeVisibleAnnotations
    } else if name == "RuntimeInvisibleAnnotations"@ {
        AttributeKind::RuntimeInvisibleAnnotations
    } else if name == "RuntimeVisibleParameterAnnotations"@ {
        AttributeKind::RuntimeVisibleParameterAnnotations
    } else if name == "RuntimeInvisibleParameterAnnotations"@ {
        AttributeKind::RuntimeInvisibleParameterAnnotations
    } else if name == "RuntimeVisibleTypeAnnotations"@ {
        AttributeKind::RuntimeVisibleTypeAnnotations
    } else if name == "RuntimeInvisibleTypeAnnotations"@ {
        AttributeKind::RuntimeInvisibleTypeAnnotations
    } else if name == "AnnotationDefault"@ {
        AttributeKind::AnnotationDefault
    } else if name == "BootstrapMethods"@ {
        AttributeKind::BootstrapMethods
    } else if name == "MethodParameters"@ {
        AttributeKind::MethodParameters
    } else if name == "Module"@ {
        AttributeKind::Module
    } else if name == "ModulePackages"@ {
        AttributeKind::ModulePackages
    } else if name == "ModuleMainClass"@ {
        AttributeKind::ModuleMainClass
    } else if name == "NestHost"@ {
        AttributeKind::NestHost
    } else if name == "NestMembers"@ {
        AttributeKind::NestMembers
    } else if name == "Record"@ {
        AttributeKind::Record
    } else if name == "PermittedSubclasses"@ {
        AttributeKind::PermittedSubclasses
    } else {
        AttributeKind::Unknown
    }
}

/// The kind that the attribute name `name` selects.
pub fn attribute_kind(name: &str) -> (kind: AttributeKind)
    ensures
        kind == kind_of(name@),
{
    if same_text(name, "ConstantValue") {
        AttributeKind::ConstantValue
    } else if same_text(name, "Code") {
        AttributeKind::Code
    } else if same_text(name, "StackMapTable") {
        AttributeKind::StackMapTable
    } else if same_text(name, "Exceptions") {
        AttributeKind::Exceptions
    } else if same_text(name, "InnerClasses") {
        AttributeKind::InnerClasses
    } else if same_text(name, "EnclosingMethod") {
        AttributeKind::EnclosingMethod
    } else if same_text(name, "Synthetic") {
        AttributeKind::Synthetic
    } else if same_text(name, "Signature") {
        AttributeKind::Signature
    } else if same_text(name, "SourceFile") {
        AttributeKind::SourceFile
    } else if same_text(name, "SourceDebugExtension") {
        AttributeKind::SourceDebugExtension
    } else if same_text(name, "LineNumberTable") {
        AttributeKind::LineNumberTable
    } else if same_text(name, "LocalVariableTable") {
        AttributeKind::LocalVariableTable
    } else if same_text(name, "LocalVariableTypeTable") {
        AttributeKind::LocalVariableTypeTable
    } else if same_text(name, "Deprecated") {
        AttributeKind::Deprecated
    } else if same_text(name, "RuntimeVisibleAnnotations") {
        AttributeKind::RuntimeVisibleAnnotations
    } else if same_text(name, "RuntimeInvisibleAnnotations") {
        AttributeKind::RuntimeInvisibleAnnotations
    } else if same_text(name, "RuntimeVisibleParameterAnnotations") {
        AttributeKind::RuntimeVisibleParameterAnnotations
    } else if same_text(name, "RuntimeInvisibleParameterAnnotations") {
        AttributeKind::RuntimeInvisibleParameterAnnotations
    } else if same_text(name, "RuntimeVisibleTypeAnnotations") {
        AttributeKind::RuntimeVisibleTypeAnnotations
    } else if same_text(name, "RuntimeInvisibleTypeAnnotations") {
        AttributeKind::RuntimeInvisibleTypeAnnotations
    } else if same_text(name, "AnnotationDefault") {
        AttributeKind::AnnotationDefault
    } else if same_text(name, "BootstrapMethods") {
        AttributeKind::BootstrapMethods
    } else if same_text(name, "MethodParameters") {
        AttributeKind::MethodParameters
    } else if same_text(name, "Module") {
        AttributeKind::Module
    } else if same_text(name, "ModulePackages") {
        AttributeKind::ModulePackages
    } else if same_text(name, "ModuleMainClass") {
        AttributeKind::ModuleMainClass
    } else if same_text(name, "NestHost") {
        AttributeKind::NestHost
    } else if same_text(name, "NestMembers") {
        AttributeKind::NestMembers
    } else if same_text(name, "Record") {
        AttributeKind::Record
    } else if same_text(name, "PermittedSubclasses") {
        AttributeKind::PermittedSubclasses
    } else {
        AttributeKind::Unknown
    }
}

/// One attribute. Every variant keeps the name index and the declared
/// length of its header, then the fields of its kind in file order.
#[derive(Debug, PartialEq, Eq)]
#[allow(inconsistent_fields)]
pub enum Attribute {
    /// The constant that initializes a field.
    ConstantValue {
        attribute_name_index: u16,
        attribute_length: u32,
        constant_value_index: u16,
    },
    /// The body of a method. `code` is kept as raw bytes.
    Code {
        attribute_name_index: u16,
        attribute_length: u32,
        max_stack: u16,
        max_locals: u16,
        code_length: u32,
        code: Vec<u8>,
        exception_table_length: u16,
        exception_table: Vec<ExceptionTable>,
        attributes_count: u16,
        attributes: Vec<Attribute>,
    },
    /// The stack map frames of a method body.
    StackMapTable {
        attribute_name_index: u16,
        attribute_length: u32,
        number_of_entries: u16,
        entries: Vec<StackMapFrame>,
    },
    /// The checked exceptions that a method may throw.
    Exceptions {
        attribute_name_index: u16,
        attribute_length: u32,
        number_of_exceptions: u16,
        exception_index_table: Vec<u16>,
    },
    /// The nested classes that the class declares or mentions.
    InnerClasses {
        attribute_name_index: u16,
        attribute_length: u32,
        number_of_classes: u16,
        classes: Vec<InnerClassInfo>,
    },
    /// The method that a local or anonymous class is declared in.
    EnclosingMethod {
        attribute_name_index: u16,
        attribute_length: u32,
        class_index: u16,
        method_index: u16,
    },
    /// Marks a member that does not appear in the source.
    Synthetic {
        attribute_name_index: u16,
        attribute_length: u32,
    },
    /// The generic signature of a class, a member or a record component.
    Signature {
        attribute_name_index: u16,
        attribute_length: u32,
        signature_index: u16,
    },
    /// The name of the source file.
    SourceFile {
        attribute_name_index: u16,
        attribute_length: u32,
        sourcefile_index: u16,
    },
    /// Debugging information, kept as raw bytes.
    SourceDebugExtension {
        attribute_name_index: u16,
        attribute_length: u32,
        debug_extension: Vec<u8>,
    },
    /// The code offsets at which source lines begin.
    LineNumberTable {
        attribute_name_index: u16,
        attribute_length: u32,
        line_number_table_length: u16,
        line_number_table: Vec<LineNumberTableEntry>,
    },
    /// The local variables of a method body, with their descriptors.
    LocalVariableTable {
        attribute_name_index: u16,
        attribute_length: u32,
        local_variable_table_length: u16,
        local_variable_table: Vec<LocalVariableTableEntry>,
    },
    /// The local variables of generic type, with their signatures.
    LocalVariableTypeTable {
        attribute_name_index: u16,
        attribute_length: u32,
        local_variable_type_table_length: u16,
        local_variable_type_table: Vec<LocalVariableTypeTableEntry>,
    },
    /// Marks what has been superseded.
    Deprecated {
        attribute_name_index: u16,
        attribute_length: u32,
    },
    /// The annotations that reflection shows at run time.
    RuntimeVisibleAnnotations {
        attribute_name_index: u16,
        attribute_length: u32,
        num_annotations: u16,
        annotations: Vec<Annotation>,
    },
    /// The annotations that reflection does not show at run time.
    RuntimeInvisibleAnnotations {
        attribute_name_index: u16,
        attribute_length: u32,
        num_annotations: u16,
        annotations: Vec<Annotation>,
    },
    /// The annotations on formal parameters that reflection shows, one list
    /// for each parameter.
    RuntimeVisibleParameterAnnotations {
        attribute_name_index: u16,
        attribute_length: u32,
        num_parameters: u8,
        parameter_annotations: Vec<ParameterAnnotations>,
    },
    /// The annotations on formal parameters that reflection does not show,
    /// one list for each parameter.
    RuntimeInvisibleParameterAnnotations {
        attribute_name_index: u16,
        attribute_length: u32,
        num_parameters: u8,
        parameter_annotations: Vec<ParameterAnnotations>,
    },
    /// The annotations on uses of types that reflection shows.
    RuntimeVisibleTypeAnnotations {
        attribute_name_index: u16,
        attribute_length: u32,
        num_annotations: u16,
        annotations: Vec<TypeAnnotation>,
    },
    /// The annotations on uses of types that reflection does not show.
    RuntimeInvisibleTypeAnnotations {
        attribute_name_index: u16,
        attribute_length: u32,
        num_annotations: u16,
        annotations: Vec<TypeAnnotation>,
    },
    /// The default value of an element of an annotation interface.
    AnnotationDefault {
        attribute_name_index: u16,
        attribute_length: u32,
        default_value: ElementValue,
    },
    /// The bootstrap methods that dynamic call sites and constants name.
    BootstrapMethods {
        attribute_name_index: u16,
        attribute_length: u32,
        num_bootstrap_methods: u16,
        bootstrap_methods: Vec<BootstrapMethod>,
    },
    /// The names and flags of the formal parameters of a method.
    MethodParameters {
        attribute_name_index: u16,
        attribute_length: u32,
        parameters_count: u8,
        parameters: Vec<MethodParameter>,
    },
    /// What a module requires, exports, opens, uses and provides.
    Module {
        attribute_name_index: u16,
        attribute_length: u32,
        module_name_index: u16,
        module_flags: u16,
        module_version_index: u16,
        requires_count: u16,
        requirements: Vec<ModuleRequirement>,
        exports_count: u16,
        exports: Vec<ModuleExport>,
        opens_count: u16,
        opens: Vec<ModuleOpens>,
        uses_count: u16,
        uses_index: Vec<u16>,
        provides_count: u16,
        provides: Vec<ModuleProvides>,
    },
    /// The packages of a module.
    ModulePackages {
        attribute_name_index: u16,
        attribute_length: u32,
        package_count: u16,
        package_index: Vec<u16>,
    },
    /// The main class of a module.
    ModuleMainClass {
        attribute_name_index: u16,
        attribute_length: u32,
        main_class_index: u16,
    },
    /// The host of the nest that the class belongs to.
    NestHost {
        attribute_name_index: u16,
        attribute_length: u32,
        host_class_index: u16,
    },
    /// The members of the nest that the class hosts.
    NestMembers {
        attribute_name_index: u16,
        attribute_length: u32,
        number_of_classes: u16,
        classes: Vec<u16>,
    },
    /// The components of a record class.
    Record {
        attribute_name_index: u16,
        attribute_length: u32,
        component_count: u16,
        components: Vec<RecordComponentInfo>,
    },
    /// The classes that may extend a sealed class.
    PermittedSubclasses {
        attribute_name_index: u16,
        attribute_length: u32,
        number_of_classes: u16,
        classes: Vec<u16>,
    },
    /// An attribute whose name this decoder does not know, kept as it stands
    /// in the file.
    Unknown {
        attribute_name_index: u16,
        attribute_length: u32,
        info: Vec<u8>,
    },
}

/// The mathematical value of an `Attribute`.
#[allow(inconsistent_fields)]
pub enum AttributeView {
    ConstantValue {
        attribute_name_index: u16,
        attribute_length: u32,
        constant_value_index: u16,
    },
    Code {
        attribute_name_index: u16,
        attribute_length: u32,
        max_stack: u16,
        max_locals: u16,
        code_length: u32,
        code: Seq<u8>,
        exception_table_length: u16,
        exception_table: Seq<ExceptionTable>,
        attributes_count: u16,
        attributes: Seq<AttributeView>,
    },
    StackMapTable {
        attribute_name_index: u16,
        attribute_length: u32,
        number_of_entries: u16,
        entries: Seq<StackMapFrameView>,
    },
    Exceptions {
        attribute_name_index: u16,
        attribute_length: u32,
        number_of_exceptions: u16,
        exception_index_table: Seq<u16>,
    },
    InnerClasses {
        attribute_name_index: u16,
        attribute_length: u32,
        number_of_classes: u16,
        classes: Seq<InnerClassInfo>,
    },
    EnclosingMethod {
        attribute_name_index: u16,
        attribute_length: u32,
        class_index: u16,
        method_index: u16,
    },
    Synthetic {
        attribute_name_index: u16,
        attribute_length: u32,
    },
    Signature {
        attribute_name_index: u16,
        attribute_length: u32,
        signature_index: u16,
    },
    SourceFile {
        attribute_name_index: u16,
        attribute_length: u32,
        sourcefile_index: u16,
    },
    SourceDebugExtension {
        attribute_name_index: u16,
        attribute_length: u32,
        debug_extension: Seq<u8>,
    },
    LineNumberTable {
        attribute_name_index: u16,
        attribute_length: u32,
        line_number_table_length: u16,
        line_number_table: Seq<LineNumberTableEntry>,
    },
    LocalVariableTable {
        attribute_name_index: u16,
        attribute_length: u32,
        local_variable_table_length: u16,
        local_variable_table: Seq<LocalVariableTableEntry>,
    },
    LocalVariableTypeTable {
        attribute_name_index: u16,
        attribute_length: u32,
        local_variable_type_table_length: u16,
        local_variable_type_table: Seq<LocalVariableTypeTableEntry>,
    },
    Deprecated {
        attribute_name_index: u16,
        attribute_length: u32,
    },
    RuntimeVisibleAnnotations {
        attribute_name_index: u16,
        attribute_length: u32,
        num_annotations: u16,
        annotations: Seq<AnnotationView>,
    },
    RuntimeInvisibleAnnotations {
        attribute_name_index: u16,
        attribute_length: u32,
        num_annotations: u16,
        annotations: Seq<AnnotationView>,
    },
    RuntimeVisibleParameterAnnotations {
        attribute_name_index: u16,
        attribute_length: u32,
        num_parameters: u8,
        parameter_annotations: Seq<ParameterAnnotationsView>,
    },
    RuntimeInvisibleParameterAnnotations {
        attribute_name_index: u16,
        attribute_length: u32,
        num_parameters: u8,
        parameter_annotations: Seq<ParameterAnnotationsView>,
    },
    RuntimeVisibleTypeAnnotations {
        attribute_name_index: u16,
        attribute_length: u32,
        num_annotations: u16,
        annotations: Seq<TypeAnnotationView>,
    },
    RuntimeInvisibleTypeAnnotations {
        attribute_name_index: u16,
        attribute_length: u32,
        num_annotations: u16,
        annotations: Seq<TypeAnnotationView>,
    },
    AnnotationDefault {
        attribute_name_index: u16,
        attribute_length: u32,
        default_value: ElementValueView,
    },
    BootstrapMethods {
        attribute_name_index: u16,
        attribute_length: u32,
        num_bootstrap_methods: u16,
        bootstrap_methods: Seq<BootstrapMethodView>,
    },
    MethodParameters {
        attribute_name_index: u16,
        attribute_length: u32,
        parameters_count: u8,
        parameters: Seq<MethodParameter>,
    },
    Module {
        attribute_name_index: u16,
        attribute_length: u32,
        module_name_index: u16,
        module_flags: u16,
        module_version_index: u16,
        requires_count: u16,
        requirements: Seq<ModuleRequirement>,
        exports_count: u16,
        exports: Seq<ModuleExportView>,
        opens_count: u16,
        opens: Seq<ModuleOpensView>,
        uses_count: u16,
        uses_index: Seq<u16>,
        provides_count: u16,
        provides: Seq<ModuleProvidesView>,
    },
    ModulePackages {
        attribute_name_index: u16,
        attribute_length: u32,
        package_count: u16,
        package_index: Seq<u16>,
    },
    ModuleMainClass {
        attribute_name_index: u16,
        attribute_length: u32,
        main_class_index: u16,
    },
    NestHost {
        attribute_name_index: u16,
        attribute_length: u32,
        host_class_index: u16,
    },
    NestMembers {
        attribute_name_index: u16,
        attribute_length: u32,
        number_of_classes: u16,
        classes: Seq<u16>,
    },
    Record {
        attribute_name_index: u16,
        attribute_length: u32,
        component_count: u16,
        components: Seq<RecordComponentInfoView>,
    },
    PermittedSubclasses {
        attribute_name_index: u16,
        attribute_length: u32,
        number_of_classes: u16,
        classes: Seq<u16>,
    },
    Unknown {
        attribute_name_index: u16,
        attribute_length: u32,
        info: Seq<u8>,
    },
}

/// One component of a record class, with attributes of its own.
#[derive(Debug, PartialEq, Eq)]
pub struct RecordComponentInfo {
    pub name_index: u16,
    pub descriptor_index: u16,
    pub attributes_count: u16,
    pub attributes: Vec<Attribute>,
}

/// The mathematical value of a `RecordComponentInfo`.
pub struct RecordComponentInfoView {
    pub name_index: u16,
    pub descriptor_index: u16,
    pub attributes_count: u16,
    pub attributes: Seq<AttributeView>,
}

/// The value of `c`, with the values of its attributes.
pub open spec fn component_view(c: RecordComponentInfo) -> RecordComponentInfoView
    decreases c,
{
    RecordComponentInfoView {
        name_index: c.name_index,
        descriptor_index: c.descriptor_index,
        attributes_count: c.attributes_count,
        attributes: Seq::new(
            c.attributes.len() as nat,
            |i: int|
                if 0 <= i < c.attributes.len() {
                    attribute_view(c.attributes[i])
                } else {
                    arbitrary()
                },
        ),
    }
}

/// The value of `a`, with the values of what it holds.
pub open spec fn attribute_view(a: Attribute) -> AttributeView
    decreases a,
{
    match a {
        Attribute::ConstantValue {
            attribute_name_index,
            attribute_length,
            constant_value_index,
        } => AttributeView::ConstantValue {
            attribute_name_index,
            attribute_length,
            constant_value_index,
        },
        Attribute::Code {
            attribute_name_index,
            attribute_length,
            max_stack,
            max_locals,
            code_length,
            code,
            exception_table_length,
            exception_table,
            attributes_count,
            attributes,
        } => AttributeView::Code {
            attribute_name_index,
            attribute_length,
            max_stack,
            max_locals,
            code_length,
            code: code@,
            exception_table_length,
            exception_table: views(exception_table@),
            attributes_count,
            attributes: Seq::new(
                attributes.len() as nat,
                |i: int|
                    if 0 <= i < attributes.len() {
                        attribute_view(attributes[i])
                    } else {
                        arbitrary()
                    },
            ),
        },
        Attribute::StackMapTable {
            attribute_name_index,
            attribute_length,
            number_of_entries,
            entries,
        } => AttributeView::StackMapTable {
            attribute_name_index,
            attribute_length,
            number_of_entries,
            entries: views(entries@),
        },
        Attribute::Exceptions {
            attribute_name_index,
            attribute_length,
            number_of_exceptions,
            exception_index_table,
        } => AttributeView::Exceptions {
            attribute_name_index,
            attribute_length,
            number_of_exceptions,
            exception_index_table: exception_index_table@,
        },
        Attribute::InnerClasses {
            attribute_name_index,
            attribute_length,
            number_of_classes,
            classes,
        } => AttributeView::InnerClasses {
            attribute_name_index,
            attribute_length,
            number_of_classes,
            classes: views(classes@),
        },
        Attribute::EnclosingMethod {
            attribute_name_index,
            attribute_length,
            class_index,
            method_index,
        } => AttributeView::EnclosingMethod {
            attribute_name_index,
            attribute_length,
            class_index,
            method_index,
        },
        Attribute::Synthetic {
            attribute_name_index,
            attribute_length,
        } => AttributeView::Synthetic {
            attribute_name_index,
            attribute_length,
        },
        Attribute::Signature {
            attribute_name_index,
            attribute_length,
            signature_index,
        } => AttributeView::Signature {
            attribute_name_index,
            attribute_length,
            signature_index,
        },
        Attribute::SourceFile {
            attribute_name_index,
            attribute_length,
            sourcefile_index,
        } => AttributeView::SourceFile {
            attribute_name_index,
            attribute_length,
            sourcefile_index,
        },
        Attribute::SourceDebugExtension {
            attribute_name_index,
            attribute_length,
            debug_extension,
        } => AttributeView::SourceDebugExtension {
            attribute_name_index,
            attribute_length,
            debug_extension: debug_extension@,
        },
        Attribute::LineNumberTable {
            attribute_name_index,
            attribute_length,
            line_number_table_length,
            line_number_table,
        } => AttributeView::LineNumberTable {
            attribute_name_index,
            attribute_length,
            line_number_table_length,
            line_number_table: views(line_number_table@),
        },
        Attribute::LocalVariableTable {
            attribute_name_index,
            attribute_length,
            local_variable_table_length,
            local_variable_table,
        } => AttributeView::LocalVariableTable {
            attribute_name_index,
            attribute_length,
            local_variable_table_length,
            local_variable_table: views(local_variable_table@),
        },
        Attribute::LocalVariableTypeTable {
            attribute_name_index,
            attribute_length,
            local_variable_type_table_length,
            local_variable_type_table,
        } => AttributeView::LocalVariableTypeTable {
            attribute_name_index,
            attribute_length,
            local_variable_type_table_length,
            local_variable_type_table: views(local_variable_type_table@),
        },
        Attribute::Deprecated {
            attribute_name_index,
            attribute_length,
        } => AttributeView::Deprecated {
            attribute_name_index,
            attribute_length,
        },
        Attribute::RuntimeVisibleAnnotations {
            attribute_name_index,
            attribute_length,
            num_annotations,
            annotations,
        } => AttributeView::RuntimeVisibleAnnotations {
            attribute_name_index,
            attribute_length,
            num_annotations,
            annotations: views(annotations@),
        },
        Attribute::RuntimeInvisibleAnnotations {
            attribute_name_index,
            attribute_length,
            num_annotations,
            annotations,
        } => AttributeView::RuntimeInvisibleAnnotations {
            attribute_name_index,
            attribute_length,
            num_annotations,
            annotations: views(annotations@),
        },
        Attribute::RuntimeVisibleParameterAnnotations {
            attribute_name_index,
            attribute_length,
            num_parameters,
            parameter_annotations,
        } => AttributeView::RuntimeVisibleParameterAnnotations {
            attribute_name_index,
            attribute_length,
            num_parameters,
            parameter_annotations: views(parameter_annotations@),
        },
        Attribute::RuntimeInvisibleParameterAnnotations {
            attribute_name_index,
            attribute_length,
            num_parameters,
            parameter_annotations,
        } => AttributeView::RuntimeInvisibleParameterAnnotations {
            attribute_name_index,
            attribute_length,
            num_parameters,
            parameter_annotations: views(parameter_annotations@),
        },
        Attribute::RuntimeVisibleTypeAnnotations {
            attribute_name_index,
            attribute_length,
            num_annotations,
            annotations,
        } => AttributeView::RuntimeVisibleTypeAnnotations {
            attribute_name_index,
            attribute_length,
            num_annotations,
            annotations: views(annotations@),
        },
        Attribute::RuntimeInvisibleTypeAnnotations {
            attribute_name_index,
            attribute_length,
            num_annotations,
            annotations,
        } => AttributeView::RuntimeInvisibleTypeAnnotations {
            attribute_name_index,
            attribute_length,
            num_annotations,
            annotations: views(annotations@),
        },
        Attribute::AnnotationDefault {
            attribute_name_index,
            attribute_length,
            default_value,
        } => AttributeView::AnnotationDefault {
            attribute_name_index,
            attribute_length,
            default_value: default_value@,
        },
        Attribute::BootstrapMethods {
            attribute_name_index,
            attribute_length,
            num_bootstrap_methods,
            bootstrap_methods,
        } => AttributeView::BootstrapMethods {
            attribute_name_index,
            attribute_length,
            num_bootstrap_methods,
            bootstrap_methods: views(bootstrap_methods@),
        },
        Attribute::MethodParameters {
            attribute_name_index,
            attribute_length,
            parameters_count,
            parameters,
        } => AttributeView::MethodParameters {
            attribute_name_index,
            attribute_length,
            parameters_count,
            parameters: views(parameters@),
        },
        Attribute::Module {
            attribute_name_index,
            attribute_length,
            module_name_index,
            module_flags,
            module_version_index,
            requires_count,
            requirements,
            exports_count,
            exports,
            opens_count,
            opens,
            uses_count,
            uses_index,
            provides_count,
            provides,
        } => AttributeView::Module {
            attribute_name_index,
            attribute_length,
            module_name_index,
            module_flags,
            module_version_index,
            requires_count,
            requirements: views(requirements@),
            exports_count,
            exports: views(exports@),
            opens_count,
            opens: views(opens@),
            uses_count,
            uses_index: uses_index@,
            provides_count,
            provides: views(provides@),
        },
        Attribute::ModulePackages {
            attribute_name_index,
            attribute_length,
            package_count,
            package_index,
        } => AttributeView::ModulePackages {
            attribute_name_index,
            attribute_length,
            package_count,
            package_index: package_index@,
        },
        Attribute::ModuleMainClass {
            attribute_name_index,
            attribute_length,
            main_class_index,
        } => AttributeView::ModuleMainClass {
            attribute_name_index,
            attribute_length,
            main_class_index,
        },
        Attribute::NestHost {
            attribute_name_index,
            attribute_length,
            host_class_index,
        } => AttributeView::NestHost {
            attribute_name_index,
            attribute_length,
            host_class_index,
        },
        Attribute::NestMembers {
            attribute_name_index,
            attribute_length,
            number_of_classes,
            classes,
        } => AttributeView::NestMembers {
            attribute_name_index,
            attribute_length,
            number_of_classes,
            classes: classes@,
        },
        Attribute::Record {
            attribute_name_index,
            attribute_length,
            component_count,
            components,
        } => AttributeView::Record {
            attribute_name_index,
            attribute_length,
            component_count,
            components: Seq::new(
                components.len() as nat,
                |i: int|
                    if 0 <= i < components.len() {
                        component_view(components[i])
                    } else {
                        arbitrary()
                    },
            ),
        },
        Attribute::PermittedSubclasses {
            attribute_name_index,
            attribute_length,
            number_of_classes,
            classes,
        } => AttributeView::PermittedSubclasses {
            attribute_name_index,
            attribute_length,
            number_of_classes,
            classes: classes@,
        },
        Attribute::Unknown {
            attribute_name_index,
            attribute_length,
            info,
        } => AttributeView::Unknown {
            attribute_name_index,
            attribute_length,
            info: info@,
        },
    }
}

/// Whether every count inside `a` is the length of the table that it
/// counts, and the raw bytes of an attribute kept whole are as many as its
/// declared length.
pub open spec fn attribute_counted(a: AttributeView) -> bool
    decreases a,
{
    match a {
        AttributeView::Code {
            code_length,
            code,
            exception_table_length,
            exception_table,
            attributes_count,
            attributes,
            ..
        } => {
            &&& code.len() == code_length
            &&& exception_table.len() == exception_table_length
            &&& attributes.len() == attributes_count
            &&& forall|i: int|
                0 <= i < attributes.len() ==> attribute_counted(#[trigger] attributes[i])
        },
        AttributeView::StackMapTable { number_of_entries, entries, .. } => {
            &&& entries.len() == number_of_entries
            &&& all_counted::<StackMapFrame>(entries)
        },
        AttributeView::Exceptions { number_of_exceptions, exception_index_table, .. } => {
            &&& exception_index_table.len() == number_of_exceptions
        },
        AttributeView::InnerClasses { number_of_classes, classes, .. } => {
            &&& classes.len() == number_of_classes
        },
        AttributeView::SourceDebugExtension { attribute_length, debug_extension, .. } => {
            &&& debug_extension.len() == attribute_length
        },
        AttributeView::LineNumberTable { line_number_table_length, line_number_table, .. } => {
            &&& line_number_table.len() == line_number_table_length
        },
        AttributeView::LocalVariableTable {
            local_variable_table_length,
            local_variable_table,
            ..
        } => {
            &&& local_variable_table.len() == local_variable_table_length
        },
        AttributeView::LocalVariableTypeTable {
            local_variable_type_table_length,
            local_variable_type_table,
            ..
        } => {
            &&& local_variable_type_table.len() == local_variable_type_table_length
        },
        AttributeView::RuntimeVisibleAnnotations { num_annotations, annotations, .. } => {
            &&& annotations.len() == num_annotations
            &&& all_counted::<Annotation>(annotations)
        },
        AttributeView::RuntimeInvisibleAnnotations { num_annotations, annotations, .. } => {
            &&& annotations.len() == num_annotations
            &&& all_counted::<Annotation>(annotations)
        },
        AttributeView::RuntimeVisibleParameterAnnotations {
            num_parameters,
            parameter_annotations,
            ..
        } => {
            &&& parameter_annotations.len() == num_parameters
            &&& all_counted::<ParameterAnnotations>(parameter_annotations)
        },
        AttributeView::RuntimeInvisibleParameterAnnotations {
            num_parameters,
            parameter_annotations,
            ..
        } => {
            &&& parameter_annotations.len() == num_parameters
            &&& all_counted::<ParameterAnnotations>(parameter_annotations)
        },
        AttributeView::RuntimeVisibleTypeAnnotations { num_annotations, annotations, .. } => {
            &&& annotations.len() == num_annotations
            &&& all_counted::<TypeAnnotation>(annotations)
        },
        AttributeView::RuntimeInvisibleTypeAnnotations { num_annotations, annotations, .. } => {
            &&& annotations.len() == num_annotations
            &&& all_counted::<TypeAnnotation>(annotations)
        },
        AttributeView::AnnotationDefault { default_value, .. } => {
            &&& element_value_counted(default_value)
        },
        AttributeView::BootstrapMethods { num_bootstrap_methods, bootstrap_methods, .. } => {
            &&& bootstrap_methods.len() == num_bootstrap_methods
            &&& all_counted::<BootstrapMethod>(bootstrap_methods)
        },
        AttributeView::MethodParameters { parameters_count, parameters, .. } => {
            &&& parameters.len() == parameters_count
        },
        AttributeView::Module {
            requires_count,
            requirements,
            exports_count,
            exports,
            opens_count,
            opens,
            uses_count,
            uses_index,
            provides_count,
            provides,
            ..
        } => {
            &&& requirements.len() == requires_count
            &&& exports.len() == exports_count
            &&& all_counted::<ModuleExport>(exports)
            &&& opens.len() == opens_count
            &&& all_counted::<ModuleOpens>(opens)
            &&& uses_index.len() == uses_count
            &&& provides.len() == provides_count
            &&& all_counted::<ModuleProvides>(provides)
        },
        AttributeView::ModulePackages { package_count, package_index, .. } => {
            &&& package_index.len() == package_count
        },
        AttributeView::NestMembers { number_of_classes, classes, .. } => {
            &&& classes.len() == number_of_classes
        },
        AttributeView::Record { component_count, components, .. } => {
            &&& components.len() == component_count
            &&& forall|i: int|
                0 <= i < components.len() ==> component_counted(#[trigger] components[i])
        },
        AttributeView::PermittedSubclasses { number_of_classes, classes, .. } => {
            &&& classes.len() == number_of_classes
        },
        AttributeView::Unknown { attribute_length, info, .. } => {
            &&& info.len() == attribute_length
        },
        _ => true,
    }
}

/// Whether `c` has as many attributes as it says, each of them counted.
pub open spec fn component_counted(c: RecordComponentInfoView) -> bool
    decreases c,
{
    c.attributes.len() == c.attributes_count && forall|i: int|
        0 <= i < c.attributes.len() ==> attribute_counted(#[trigger] c.attributes[i])
}

/// Whether every attribute of `s` is counted.
pub open spec fn all_attributes_counted(s: Seq<AttributeView>) -> bool {
    forall|i: int| 0 <= i < s.len() ==> attribute_counted(#[trigger] s[i])
}

/// Whether every component of `s` is counted.
pub open spec fn all_components_counted(s: Seq<RecordComponentInfoView>) -> bool {
    forall|i: int| 0 <= i < s.len() ==> component_counted(#[trigger] s[i])
}

impl AttributeView {
    /// The kind of the attribute.
    pub open spec fn kind(self) -> AttributeKind {
        match self {
            AttributeView::ConstantValue { .. } => AttributeKind::ConstantValue,
            AttributeView::Code { .. } => AttributeKind::Code,
            AttributeView::StackMapTable { .. } => AttributeKind::StackMapTable,
            AttributeView::Exceptions { .. } => AttributeKind::Exceptions,
            AttributeView::InnerClasses { .. } => AttributeKind::InnerClasses,
            AttributeView::EnclosingMethod { .. } => AttributeKind::EnclosingMethod,
            AttributeView::Synthetic { .. } => AttributeKind::Synthetic,
            AttributeView::Signature { .. } => AttributeKind::Signature,
            AttributeView::SourceFile { .. } => AttributeKind::SourceFile,
            AttributeView::SourceDebugExtension { .. } => AttributeKind::SourceDebugExtension,
            AttributeView::LineNumberTable { .. } => AttributeKind::LineNumberTable,
            AttributeView::LocalVariableTable { .. } => AttributeKind::LocalVariableTable,
            AttributeView::LocalVariableTypeTable { .. } => AttributeKind::LocalVariableTypeTable,
            AttributeView::Deprecated { .. } => AttributeKind::Deprecated,
            AttributeView::RuntimeVisibleAnnotations { .. } => AttributeKind::RuntimeVisibleAnnotations,
            AttributeView::RuntimeInvisibleAnnotations { .. } => AttributeKind::RuntimeInvisibleAnnotations,
            AttributeView::RuntimeVisibleParameterAnnotations { .. } => AttributeKind::RuntimeVisibleParameterAnnotations,
            AttributeView::RuntimeInvisibleParameterAnnotations { .. } => AttributeKind::RuntimeInvisibleParameterAnnotations,
            AttributeView::RuntimeVisibleTypeAnnotations { .. } => AttributeKind::RuntimeVisibleTypeAnnotations,
            AttributeView::RuntimeInvisibleTypeAnnotations { .. } => AttributeKind::RuntimeInvisibleTypeAnnotations,
            AttributeView::AnnotationDefault { .. } => AttributeKind::AnnotationDefault,
            AttributeView::BootstrapMethods { .. } => AttributeKind::BootstrapMethods,
            AttributeView::MethodParameters { .. } => AttributeKind::MethodParameters,
            AttributeView::Module { .. } => AttributeKind::Module,
            AttributeView::ModulePackages { .. } => AttributeKind::ModulePackages,
            AttributeView::ModuleMainClass { .. } => AttributeKind::ModuleMainClass,
            AttributeView::NestHost { .. } => AttributeKind::NestHost,
            AttributeView::NestMembers { .. } => AttributeKind::NestMembers,
            AttributeView::Record { .. } => AttributeKind::Record,
            AttributeView::PermittedSubclasses { .. } => AttributeKind::PermittedSubclasses,
            AttributeView::Unknown { .. } => AttributeKind::Unknown,
        }
    }

    /// The name index from the header of the attribute.
    pub open spec fn name_index(self) -> u16 {
        match self {
            AttributeView::ConstantValue { attribute_name_index, .. } => attribute_name_index,
            AttributeView::Code { attribute_name_index, .. } => attribute_name_index,
            AttributeView::StackMapTable { attribute_name_index, .. } => attribute_name_index,
            AttributeView::Exceptions { attribute_name_index, .. } => attribute_name_index,
            AttributeView::InnerClasses { attribute_name_index, .. } => attribute_name_index,
            AttributeView::EnclosingMethod { attribute_name_index, .. } => attribute_name_index,
            AttributeView::Synthetic { attribute_name_index, .. } => attribute_name_index,
            AttributeView::Signature { attribute_name_index, .. } => attribute_name_index,
            AttributeView::SourceFile { attribute_name_index, .. } => attribute_name_index,
            AttributeView::SourceDebugExtension { attribute_name_index, .. } => attribute_name_index,
            AttributeView::LineNumberTable { attribute_name_index, .. } => attribute_name_index,
            AttributeView::LocalVariableTable { attribute_name_index, .. } => attribute_name_index,
            AttributeView::LocalVariableTypeTable { attribute_name_index, .. } => attribute_name_index,
            AttributeView::Deprecated { attribute_name_index, .. } => attribute_name_index,
            AttributeView::RuntimeVisibleAnnotations { attribute_name_index, .. } => attribute_name_index,
            AttributeView::RuntimeInvisibleAnnotations { attribute_name_index, .. } => attribute_name_index,
            AttributeView::RuntimeVisibleParameterAnnotations { attribute_name_index, .. } => attribute_name_index,
            AttributeView::RuntimeInvisibleParameterAnnotations { attribute_name_index, .. } => attribute_name_index,
            AttributeView::RuntimeVisibleTypeAnnotations { attribute_name_index, .. } => attribute_name_index,
            AttributeView::RuntimeInvisibleTypeAnnotations { attribute_name_index, .. } => attribute_name_index,
            AttributeView::AnnotationDefault { attribute_name_index, .. } => attribute_name_index,
            AttributeView::BootstrapMethods { attribute_name_index, .. } => attribute_name_index,
            AttributeView::MethodParameters { attribute_name_index, .. } => attribute_name_index,
            AttributeView::Module { attribute_name_index, .. } => attribute_name_index,
            AttributeView::ModulePackages { attribute_name_index, .. } => attribute_name_index,
            AttributeView::ModuleMainClass { attribute_name_index, .. } => attribute_name_index,
            AttributeView::NestHost { attribute_name_index, .. } => attribute_name_index,
            AttributeView::NestMembers { attribute_name_index, .. } => attribute_name_index,
            AttributeView::Record { attribute_name_index, .. } => attribute_name_index,
            AttributeView::PermittedSubclasses { attribute_name_index, .. } => attribute_name_index,
            AttributeView::Unknown { attribute_name_index, .. } => attribute_name_index,
        }
    }

    /// The declared length from the header of the attribute.
    pub open spec fn length(self) -> u32 {
        match self {
            AttributeView::ConstantValue { attribute_length, .. } => attribute_length,
            AttributeView::Code { attribute_length, .. } => attribute_length,
            AttributeView::StackMapTable { attribute_length, .. } => attribute_length,
            AttributeView::Exceptions { attribute_length, .. } => attribute_length,
            AttributeView::InnerClasses { attribute_length, .. } => attribute_length,
            AttributeView::EnclosingMethod { attribute_length, .. } => attribute_length,
            AttributeView::Synthetic { attribute_length, .. } => attribute_length,
            AttributeView::Signature { attribute_length, .. } => attribute_length,
            AttributeView::SourceFile { attribute_length, .. } => attribute_length,
            AttributeView::SourceDebugExtension { attribute_length, .. } => attribute_length,
            AttributeView::LineNumberTable { attribute_length, .. } => attribute_length,
            AttributeView::LocalVariableTable { attribute_length, .. } => attribute_length,
            AttributeView::LocalVariableTypeTable { attribute_length, .. } => attribute_length,
            AttributeView::Deprecated { attribute_length, .. } => attribute_length,
            AttributeView::RuntimeVisibleAnnotations { attribute_length, .. } => attribute_length,
            AttributeView::RuntimeInvisibleAnnotations { attribute_length, .. } => attribute_length,
            AttributeView::RuntimeVisibleParameterAnnotations { attribute_length, .. } => attribute_length,
            AttributeView::RuntimeInvisibleParameterAnnotations { attribute_length, .. } => attribute_length,
            AttributeView::RuntimeVisibleTypeAnnotations { attribute_length, .. } => attribute_length,
            AttributeView::RuntimeInvisibleTypeAnnotations { attribute_length, .. } => attribute_length,
            AttributeView::AnnotationDefault { attribute_length, .. } => attribute_length,
            AttributeView::BootstrapMethods { attribute_length, .. } => attribute_length,
            AttributeView::MethodParameters { attribute_length, .. } => attribute_length,
            AttributeView::Module { attribute_length, .. } => attribute_length,
            AttributeView::ModulePackages { attribute_length, .. } => attribute_length,
            AttributeView::ModuleMainClass { attribute_length, .. } => attribute_length,
            AttributeView::NestHost { attribute_length, .. } => attribute_length,
            AttributeView::NestMembers { attribute_length, .. } => attribute_length,
            AttributeView::Record { attribute_length, .. } => attribute_length,
            AttributeView::PermittedSubclasses { attribute_length, .. } => attribute_length,
            AttributeView::Unknown { attribute_length, .. } => attribute_length,
        }
    }
}

impl Attribute {
    /// The kind of the attribute.
    pub fn kind(&self) -> (k: AttributeKind)
        ensures
            k == self@.kind(),
    {
        match self {
            Attribute::ConstantValue { .. } => AttributeKind::ConstantValue,
            Attribute::Code { .. } => AttributeKind::Code,
            Attribute::StackMapTable { .. } => AttributeKind::StackMapTable,
            Attribute::Exceptions { .. } => AttributeKind::Exceptions,
            Attribute::InnerClasses { .. } => AttributeKind::InnerClasses,
            Attribute::EnclosingMethod { .. } => AttributeKind::EnclosingMethod,
            Attribute::Synthetic { .. } => AttributeKind::Synthetic,
            Attribute::Signature { .. } => AttributeKind::Signature,
            Attribute::SourceFile { .. } => AttributeKind::SourceFile,
            Attribute::SourceDebugExtension { .. } => AttributeKind::SourceDebugExtension,
            Attribute::LineNumberTable { .. } => AttributeKind::LineNumberTable,
            Attribute::LocalVariableTable { .. } => AttributeKind::LocalVariableTable,
            Attribute::LocalVariableTypeTable { .. } => AttributeKind::LocalVariableTypeTable,
            Attribute::Deprecated { .. } => AttributeKind::Deprecated,
            Attribute::RuntimeVisibleAnnotations { .. } => AttributeKind::RuntimeVisibleAnnotations,
            Attribute::RuntimeInvisibleAnnotations { .. } => AttributeKind::RuntimeInvisibleAnnotations,
            Attribute::RuntimeVisibleParameterAnnotations { .. } => AttributeKind::RuntimeVisibleParameterAnnotations,
            Attribute::RuntimeInvisibleParameterAnnotations { .. } => AttributeKind::RuntimeInvisibleParameterAnnotations,
            Attribute::RuntimeVisibleTypeAnnotations { .. } => AttributeKind::RuntimeVisibleTypeAnnotations,
            Attribute::RuntimeInvisibleTypeAnnotations { .. } => AttributeKind::RuntimeInvisibleTypeAnnotations,
            Attribute::AnnotationDefault { .. } => AttributeKind::AnnotationDefault,
            Attribute::BootstrapMethods { .. } => AttributeKind::BootstrapMethods,
            Attribute::MethodParameters { .. } => AttributeKind::MethodParameters,
            Attribute::Module { .. } => AttributeKind::Module,
            Attribute::ModulePackages { .. } => AttributeKind::ModulePackages,
            Attribute::ModuleMainClass { .. } => AttributeKind::ModuleMainClass,
            Attribute::NestHost { .. } => AttributeKind::NestHost,
            Attribute::NestMembers { .. } => AttributeKind::NestMembers,
            Attribute::Record { .. } => AttributeKind::Record,
            Attribute::PermittedSubclasses { .. } => AttributeKind::PermittedSubclasses,
            Attribute::Unknown { .. } => AttributeKind::Unknown,
        }
    }

    /// The name index from the header of the attribute.
    pub fn name_index(&self) -> (i: u16)
        ensures
            i == self@.name_index(),
    {
        match self {
            Attribute::ConstantValue { attribute_name_index, .. } => *attribute_name_index,
            Attribute::Code { attribute_name_index, .. } => *attribute_name_index,
            Attribute::StackMapTable { attribute_name_index, .. } => *attribute_name_index,
            Attribute::Exceptions { attribute_name_index, .. } => *attribute_name_index,
            Attribute::InnerClasses { attribute_name_index, .. } => *attribute_name_index,
            Attribute::EnclosingMethod { attribute_name_index, .. } => *attribute_name_index,
            Attribute::Synthetic { attribute_name_index, .. } => *attribute_name_index,
            Attribute::Signature { attribute_name_index, .. } => *attribute_name_index,
            Attribute::SourceFile { attribute_name_index, .. } => *attribute_name_index,
            Attribute::SourceDebugExtension { attribute_name_index, .. } => *attribute_name_index,
            Attribute::LineNumberTable { attribute_name_index, .. } => *attribute_name_index,
            Attribute::LocalVariableTable { attribute_name_index, .. } => *attribute_name_index,
            Attribute::LocalVariableTypeTable { attribute_name_index, .. } => *attribute_name_index,
            Attribute::Deprecated { attribute_name_index, .. } => *attribute_name_index,
            Attribute::RuntimeVisibleAnnotations { attribute_name_index, .. } => *attribute_name_index,
            Attribute::RuntimeInvisibleAnnotations { attribute_name_index, .. } => *attribute_name_index,
            Attribute::RuntimeVisibleParameterAnnotations { attribute_name_index, .. } => *attribute_name_index,
            Attribute::RuntimeInvisibleParameterAnnotations { attribute_name_index, .. } => *attribute_name_index,
            Attribute::RuntimeVisibleTypeAnnotations { attribute_name_index, .. } => *attribute_name_index,
            Attribute::RuntimeInvisibleTypeAnnotations { attribute_name_index, .. } => *attribute_name_index,
            Attribute::AnnotationDefault { attribute_name_index, .. } => *attribute_name_index,
            Attribute::BootstrapMethods { attribute_name_index, .. } => *attribute_name_index,
            Attribute::MethodParameters { attribute_name_index, .. } => *attribute_name_index,
            Attribute::Module { attribute_name_index, .. } => *attribute_name_index,
            Attribute::ModulePackages { attribute_name_index, .. } => *attribute_name_index,
            Attribute::ModuleMainClass { attribute_name_index, .. } => *attribute_name_index,
            Attribute::NestHost { attribute_name_index, .. } => *attribute_name_index,
            Attribute::NestMembers { attribute_name_index, .. } => *attribute_name_index,
            Attribute::Record { attribute_name_index, .. } => *attribute_name_index,
            Attribute::PermittedSubclasses { attribute_name_index, .. } => *attribute_name_index,
            Attribute::Unknown { attribute_name_index, .. } => *attribute_name_index,
        }
    }

    /// The declared length from the header of the attribute.
    pub fn length(&self) -> (n: u32)
        ensures
            n == self@.length(),
    {
        match self {
            Attribute::ConstantValue { attribute_length, .. } => *attribute_length,
            Attribute::Code { attribute_length, .. } => *attribute_length,
            Attribute::StackMapTable { attribute_length, .. } => *attribute_length,
            Attribute::Exceptions { attribute_length, .. } => *attribute_length,
            Attribute::InnerClasses { attribute_length, .. } => *attribute_length,
            Attribute::EnclosingMethod { attribute_length, .. } => *attribute_length,
            Attribute::Synthetic { attribute_length, .. } => *attribute_length,
            Attribute::Signature { attribute_length, .. } => *attribute_length,
            Attribute::SourceFile { attribute_length, .. } => *attribute_length,
            Attribute::SourceDebugExtension { attribute_length, .. } => *attribute_length,
            Attribute::LineNumberTable { attribute_length, .. } => *attribute_length,
            Attribute::LocalVariableTable { attribute_length, .. } => *attribute_length,
            Attribute::LocalVariableTypeTable { attribute_length, .. } => *attribute_length,
            Attribute::Deprecated { attribute_length, .. } => *attribute_length,
            Attribute::RuntimeVisibleAnnotations { attribute_length, .. } => *attribute_length,
            Attribute::RuntimeInvisibleAnnotations { attribute_length, .. } => *attribute_length,
            Attribute::RuntimeVisibleParameterAnnotations { attribute_length, .. } => *attribute_length,
            Attribute::RuntimeInvisibleParameterAnnotations { attribute_length, .. } => *attribute_length,
            Attribute::RuntimeVisibleTypeAnnotations { attribute_length, .. } => *attribute_length,
            Attribute::RuntimeInvisibleTypeAnnotations { attribute_length, .. } => *attribute_length,
            Attribute::AnnotationDefault { attribute_length, .. } => *attribute_length,
            Attribute::BootstrapMethods { attribute_length, .. } => *attribute_length,
            Attribute::MethodParameters { attribute_length, .. } => *attribute_length,
            Attribute::Module { attribute_length, .. } => *attribute_length,
            Attribute::ModulePackages { attribute_length, .. } => *attribute_length,
            Attribute::ModuleMainClass { attribute_length, .. } => *attribute_length,
            Attribute::NestHost { attribute_length, .. } => *attribute_length,
            Attribute::NestMembers { attribute_length, .. } => *attribute_length,
            Attribute::Record { attribute_length, .. } => *attribute_length,
            Attribute::PermittedSubclasses { attribute_length, .. } => *attribute_length,
            Attribute::Unknown { attribute_length, .. } => *attribute_length,
        }
    }
}

impl View for Attribute {
    type V = AttributeView;

    open spec fn view(&self) -> AttributeView {
        attribute_view(*self)
    }
}

impl View for RecordComponentInfo {
    type V = RecordComponentInfoView;

    open spec fn view(&self) -> RecordComponentInfoView {
        component_view(*self)
    }
}

} // verus!
