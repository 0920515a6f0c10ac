//! Rendering a class as text: its header and pool, then one line for each
//! field, method and attribute, with what is nested set in by two spaces.
use vstd::prelude::*;
use vstd::string::StringExecFns;

use crate::attribute::{Attribute, AttributeKind, AttributeView, RecordComponentInfo, RecordComponentInfoView};
use crate::class::{ClassFile, ClassFileView, FieldInfo, FieldInfoView, MethodInfo, MethodInfoView};
use crate::constant_value::{FieldValue, FieldValueView};
use crate::cursor::views;
use crate::render::{
    decimal, hexadecimal, push_decimal, push_hexadecimal, push_pool, push_signed, render_pool,
    signed_decimal,
};

verus! {

/// The name of a kind of attribute; `Unknown` for an attribute of a name
/// that the decoder does not know.
pub open spec fn kind_name(kind: AttributeKind) -> Seq<char> {
    match kind {
        AttributeKind::ConstantValue => "ConstantValue"@,
        AttributeKind::Code => "Code"@,
        AttributeKind::StackMapTable => "StackMapTable"@,
        AttributeKind::Exceptions => "Exceptions"@,
        AttributeKind::InnerClasses => "InnerClasses"@,
        AttributeKind::EnclosingMethod => "EnclosingMethod"@,
        AttributeKind::Synthetic => "Synthetic"@,
        AttributeKind::Signature => "Signature"@,
        AttributeKind::SourceFile => "SourceFile"@,
        AttributeKind::SourceDebugExtension => "SourceDebugExtension"@,
        AttributeKind::LineNumberTable => "LineNumberTable"@,
        AttributeKind::LocalVariableTable => "LocalVariableTable"@,
        AttributeKind::LocalVariableTypeTable => "LocalVariableTypeTable"@,
        AttributeKind::Deprecated => "Deprecated"@,
        AttributeKind::RuntimeVisibleAnnotations => "RuntimeVisibleAnnotations"@,
        AttributeKind::RuntimeInvisibleAnnotations => "RuntimeInvisibleAnnotations"@,
        AttributeKind::RuntimeVisibleParameterAnnotations => "RuntimeVisibleParameterAnnotations"@,
        AttributeKind::RuntimeInvisibleParameterAnnotations => "RuntimeInvisibleParameterAnnotations"@,
        AttributeKind::RuntimeVisibleTypeAnnotations => "RuntimeVisibleTypeAnnotations"@,
        AttributeKind::RuntimeInvisibleTypeAnnotations => "RuntimeInvisibleTypeAnnotations"@,
        AttributeKind::AnnotationDefault => "AnnotationDefault"@,
        AttributeKind::BootstrapMethods => "BootstrapMethods"@,
        AttributeKind::MethodParameters => "MethodParameters"@,
        AttributeKind::Module => "Module"@,
        AttributeKind::ModulePackages => "ModulePackages"@,
        AttributeKind::ModuleMainClass => "ModuleMainClass"@,
        AttributeKind::NestHost => "NestHost"@,
        AttributeKind::NestMembers => "NestMembers"@,
        AttributeKind::Record => "Record"@,
        AttributeKind::PermittedSubclasses => "PermittedSubclasses"@,
        AttributeKind::Unknown => "Unknown"@,
    }
}

/// The name of a kind of attribute.
pub fn kind_text(kind: AttributeKind) -> (s: &'static str)
    ensures
        s@ == kind_name(kind),
{
    match kind {
        AttributeKind::ConstantValue => "ConstantValue",
        AttributeKind::Code => "Code",
        AttributeKind::StackMapTable => "StackMapTable",
        AttributeKind::Exceptions => "Exceptions",
        AttributeKind::InnerClasses => "InnerClasses",
        AttributeKind::EnclosingMethod => "EnclosingMethod",
        AttributeKind::Synthetic => "Synthetic",
        AttributeKind::Signature => "Signature",
        AttributeKind::SourceFile => "SourceFile",
        AttributeKind::SourceDebugExtension => "SourceDebugExtension",
        AttributeKind::LineNumberTable => "LineNumberTable",
        AttributeKind::LocalVariableTable => "LocalVariableTable",
        AttributeKind::LocalVariableTypeTable => "LocalVariableTypeTable",
        AttributeKind::Deprecated => "Deprecated",
        AttributeKind::RuntimeVisibleAnnotations => "RuntimeVisibleAnnotations",
        AttributeKind::RuntimeInvisibleAnnotations => "RuntimeInvisibleAnnotations",
        AttributeKind::RuntimeVisibleParameterAnnotations => "RuntimeVisibleParameterAnnotations",
        AttributeKind::RuntimeInvisibleParameterAnnotations => "RuntimeInvisibleParameterAnnotations",
        AttributeKind::RuntimeVisibleTypeAnnotations => "RuntimeVisibleTypeAnnotations",
        AttributeKind::RuntimeInvisibleTypeAnnotations => "RuntimeInvisibleTypeAnnotations",
        AttributeKind::AnnotationDefault => "AnnotationDefault",
        AttributeKind::BootstrapMethods => "BootstrapMethods",
        AttributeKind::MethodParameters => "MethodParameters",
        AttributeKind::Module => "Module",
        AttributeKind::ModulePackages => "ModulePackages",
        AttributeKind::ModuleMainClass => "ModuleMainClass",
        AttributeKind::NestHost => "NestHost",
        AttributeKind::NestMembers => "NestMembers",
        AttributeKind::Record => "Record",
        AttributeKind::PermittedSubclasses => "PermittedSubclasses",
        AttributeKind::Unknown => "Unknown",
    }
}

/// The line of an attribute after the margin `margin`: its kind, its name
/// index and its declared length.
pub open spec fn attribute_line(a: AttributeView, margin: Seq<char>) -> Seq<char> {
    margin + kind_name(a.kind()) + " name("@ + decimal(a.name_index() as nat) + ") length("@ + decimal(
        a.length() as nat,
    ) + ")\n"@
}

/// The line of a record component after the margin `margin`.
pub open spec fn component_line(c: RecordComponentInfoView, margin: Seq<char>) -> Seq<char> {
    margin + "component name("@ + decimal(c.name_index as nat) + ") descriptor("@ + decimal(
        c.descriptor_index as nat,
    ) + ")\n"@
}

/// The text of an attribute: its line, then the attributes that it holds,
/// two spaces further in.
pub open spec fn render_attribute(a: AttributeView, margin: Seq<char>) -> Seq<char>
    decreases a, 0nat,
{
    attribute_line(a, margin) + (match a {
        AttributeView::Code { attributes, .. } => render_attributes(
            attributes,
            attributes.len(),
            margin + "  "@,
        ),
        AttributeView::Record { components, .. } => render_components(
            components,
            components.len(),
            margin + "  "@,
        ),
        _ => Seq::empty(),
    })
}

/// The text of the first `n` attributes of `attrs`.
pub open spec fn render_attributes(attrs: Seq<AttributeView>, n: nat, margin: Seq<char>) -> Seq<char>
    decreases attrs, n,
{
    if n == 0 || n > attrs.len() {
        Seq::empty()
    } else {
        render_attributes(attrs, (n - 1) as nat, margin) + render_attribute(attrs[n - 1], margin)
    }
}

/// The text of the first `n` record components of `cs`: for each its line,
/// then its attributes, two spaces further in.
pub open spec fn render_components(cs: Seq<RecordComponentInfoView>, n: nat, margin: Seq<char>) -> Seq<
    char,
>
    decreases cs, n,
{
    if n == 0 || n > cs.len() {
        Seq::empty()
    } else {
        render_components(cs, (n - 1) as nat, margin) + component_line(cs[n - 1], margin)
            + render_attributes(cs[n - 1].attributes, cs[n - 1].attributes.len(), margin + "  "@)
    }
}

/// The text of the constant of a field: a number in decimal, the bit
/// pattern of a `Float` or `Double` in hexadecimal, text in quotes.
pub open spec fn render_value(v: FieldValueView) -> Seq<char> {
    match v {
        FieldValueView::Integer(i) => signed_decimal(i as int),
        FieldValueView::Float(bits) => "0x"@ + hexadecimal(bits as nat),
        FieldValueView::Long(i) => signed_decimal(i as int),
        FieldValueView::Double(bits) => "0x"@ + hexadecimal(bits as nat),
        FieldValueView::Text(t) => "\""@ + t + "\""@,
    }
}

/// The text of a field: a line with its name, its descriptor, its flags in
/// hexadecimal and its constant if it has one, then its attributes.
pub open spec fn render_field(f: FieldInfoView) -> Seq<char> {
    "  field "@ + f.name + " "@ + f.descriptor + " flags("@ + hexadecimal(f.access_flags as nat) + ")"@
        + (match f.value {
        Some(v) => " = "@ + render_value(v),
        None => Seq::empty(),
    }) + "\n"@ + render_attributes(f.attributes, f.attributes.len(), "    "@)
}

/// The text of a method: a line with the indices of its name and
/// descriptor and its flags in hexadecimal, then its attributes.
pub open spec fn render_method(m: MethodInfoView) -> Seq<char> {
    "  method name("@ + decimal(m.name_index as nat) + ") descriptor("@ + decimal(
        m.descriptor_index as nat,
    ) + ") flags("@ + hexadecimal(m.access_flags as nat) + ")\n"@ + render_attributes(
        m.attributes,
        m.attributes.len(),
        "    "@,
    )
}

/// The text of the first `n` fields of `fields`.
pub open spec fn render_fields(fields: Seq<FieldInfoView>, n: nat) -> Seq<char>
    decreases n,
{
    if n == 0 || n > fields.len() {
        Seq::empty()
    } else {
        render_fields(fields, (n - 1) as nat) + render_field(fields[n - 1])
    }
}

/// The text of the first `n` methods of `methods`.
pub open spec fn render_methods(methods: Seq<MethodInfoView>, n: nat) -> Seq<char>
    decreases n,
{
    if n == 0 || n > methods.len() {
        Seq::empty()
    } else {
        render_methods(methods, (n - 1) as nat) + render_method(methods[n - 1])
    }
}

/// The first `n` interface indices of `interfaces`, each after a space.
pub open spec fn render_interfaces(interfaces: Seq<u16>, n: nat) -> Seq<char>
    decreases n,
{
    if n == 0 || n > interfaces.len() {
        Seq::empty()
    } else {
        render_interfaces(interfaces, (n - 1) as nat) + " "@ + decimal(interfaces[n - 1] as nat)
    }
}

/// Appends the text of an attribute to `out`.
pub fn push_attribute(out: &mut String, a: &Attribute, margin: &str)
    ensures
        final(out)@ == old(out)@ + render_attribute(a@, margin@),
    decreases a, 0nat,
{
    out.append(margin);
    out.append(kind_text(a.kind()));
    out.append(" name(");
    push_decimal(out, a.name_index() as u64);
    out.append(") length(");
    push_decimal(out, a.length() as u64);
    out.append(")\n");
    assert(out@ =~= old(out)@ + attribute_line(a@, margin@));
    match a {
        Attribute::Code { attributes, .. } => {
            let deeper = String::from_str(margin).concat("  ");
            push_attributes(out, attributes, deeper.as_str());
            assert(a@->Code_attributes =~= views(attributes@));
        },
        Attribute::Record { components, .. } => {
            let deeper = String::from_str(margin).concat("  ");
            push_components(out, components, deeper.as_str());
            assert(a@->Record_components =~= views(components@));
        },
        _ => {},
    }
    assert(out@ =~= old(out)@ + render_attribute(a@, margin@));
}

/// Appends the text of the attributes `attrs` to `out`.
pub fn push_attributes(out: &mut String, attrs: &Vec<Attribute>, margin: &str)
    ensures
        final(out)@ == old(out)@ + render_attributes(views(attrs@), attrs@.len(), margin@),
    decreases attrs, attrs@.len(),
{
    let mut i: usize = 0;
    assert(out@ =~= old(out)@ + render_attributes(views(attrs@), 0, margin@));
    while i < attrs.len()
        invariant
            i <= attrs@.len(),
            out@ == old(out)@ + render_attributes(views(attrs@), i as nat, margin@),
        decreases attrs@.len() - i,
    {
        push_attribute(out, &attrs[i], margin);
        assert(views(attrs@)[i as int] == attrs@[i as int]@);
        assert(out@ =~= old(out)@ + render_attributes(views(attrs@), (i + 1) as nat, margin@));
        i = i + 1;
    }
}

/// Appends the text of the record components `cs` to `out`.
pub fn push_components(out: &mut String, cs: &Vec<RecordComponentInfo>, margin: &str)
    ensures
        final(out)@ == old(out)@ + render_components(views(cs@), cs@.len(), margin@),
    decreases cs, cs@.len(),
{
    let mut i: usize = 0;
    assert(out@ =~= old(out)@ + render_components(views(cs@), 0, margin@));
    while i < cs.len()
        invariant
            i <= cs@.len(),
            out@ == old(out)@ + render_components(views(cs@), i as nat, margin@),
        decreases cs@.len() - i,
    {
        let ghost before = out@;
        let c = &cs[i];
        out.append(margin);
        out.append("component name(");
        push_decimal(out, c.name_index as u64);
        out.append(") descriptor(");
        push_decimal(out, c.descriptor_index as u64);
        out.append(")\n");
        assert(out@ =~= before + component_line(c@, margin@));
        let deeper = String::from_str(margin).concat("  ");
        push_attributes(out, &c.attributes, deeper.as_str());
        assert(views(cs@)[i as int] == c@);
        assert(c@.attributes =~= views(c.attributes@));
        assert(out@ =~= old(out)@ + render_components(views(cs@), (i + 1) as nat, margin@));
        i = i + 1;
    }
}

/// Appends the text of the constant of a field to `out`.
pub fn push_value(out: &mut String, v: &FieldValue)
    ensures
        final(out)@ == old(out)@ + render_value(v@),
{
    match v {
        FieldValue::Integer(i) => push_signed(out, *i as i64),
        FieldValue::Float(bits) => {
            out.append("0x");
            push_hexadecimal(out, *bits as u64);
        },
        FieldValue::Long(i) => push_signed(out, *i),
        FieldValue::Double(bits) => {
            out.append("0x");
            push_hexadecimal(out, *bits);
        },
        FieldValue::Text(t) => {
            out.append("\"");
            out.append(t.as_str());
            out.append("\"");
        },
    }
    assert(out@ =~= old(out)@ + render_value(v@));
}

/// Appends the text of a field to `out`.
pub fn push_field(out: &mut String, f: &FieldInfo)
    ensures
        final(out)@ == old(out)@ + render_field(f@),
{
    out.append("  field ");
    out.append(f.name.as_str());
    out.append(" ");
    out.append(f.descriptor.as_str());
    out.append(" flags(");
    push_hexadecimal(out, f.access_flags as u64);
    out.append(")");
    match &f.value {
        Some(v) => {
            out.append(" = ");
            push_value(out, v);
        },
        None => {},
    }
    out.append("\n");
    push_attributes(out, &f.attributes, "    ");
    assert(out@ =~= old(out)@ + render_field(f@));
}

/// Appends the text of a method to `out`.
pub fn push_method(out: &mut String, m: &MethodInfo)
    ensures
        final(out)@ == old(out)@ + render_method(m@),
{
    out.append("  method name(");
    push_decimal(out, m.name_index as u64);
    out.append(") descriptor(");
    push_decimal(out, m.descriptor_index as u64);
    out.append(") flags(");
    push_hexadecimal(out, m.access_flags as u64);
    out.append(")\n");
    push_attributes(out, &m.attributes, "    ");
    assert(out@ =~= old(out)@ + render_method(m@));
}

/// Appends the text of the fields `fields` to `out`.
pub fn push_fields(out: &mut String, fields: &Vec<FieldInfo>)
    ensures
        final(out)@ == old(out)@ + render_fields(views(fields@), fields@.len()),
{
    let mut i: usize = 0;
    assert(out@ =~= old(out)@ + render_fields(views(fields@), 0));
    while i < fields.len()
        invariant
            i <= fields@.len(),
            out@ == old(out)@ + render_fields(views(fields@), i as nat),
        decreases fields@.len() - i,
    {
        push_field(out, &fields[i]);
        assert(views(fields@)[i as int] == fields@[i as int]@);
        assert(out@ =~= old(out)@ + render_fields(views(fields@), (i + 1) as nat));
        i = i + 1;
    }
}

/// Appends the text of the methods `methods` to `out`.
pub fn push_methods(out: &mut String, methods: &Vec<MethodInfo>)
    ensures
        final(out)@ == old(out)@ + render_methods(views(methods@), methods@.len()),
{
    let mut i: usize = 0;
    assert(out@ =~= old(out)@ + render_methods(views(methods@), 0));
    while i < methods.len()
        invariant
            i <= methods@.len(),
            out@ == old(out)@ + render_methods(views(methods@), i as nat),
        decreases methods@.len() - i,
    {
        push_method(out, &methods[i]);
        assert(views(methods@)[i as int] == methods@[i as int]@);
        assert(out@ =~= old(out)@ + render_methods(views(methods@), (i + 1) as nat));
        i = i + 1;
    }
}

/// Appends the interface indices `interfaces` to `out`, each after a
/// space.
pub fn push_interfaces(out: &mut String, interfaces: &Vec<u16>)
    ensures
        final(out)@ == old(out)@ + render_interfaces(interfaces@, interfaces@.len()),
{
    let mut i: usize = 0;
    assert(out@ =~= old(out)@ + render_interfaces(interfaces@, 0));
    while i < interfaces.len()
        invariant
            i <= interfaces@.len(),
            out@ == old(out)@ + render_interfaces(interfaces@, i as nat),
        decreases interfaces@.len() - i,
    {
        out.append(" ");
        push_decimal(out, interfaces[i] as u64);
        assert(out@ =~= old(out)@ + render_interfaces(interfaces@, (i + 1) as nat));
        i = i + 1;
    }
}

/// The text of a class: the magic in hexadecimal, the version as major
/// and minor, the number of pool slots, the pool, the access flags in
/// hexadecimal, the indices of the class and of its super class, the
/// indices of its interfaces, and its fields, methods and attributes.
pub open spec fn render_class(c: ClassFileView) -> Seq<char> {
    "magic: "@ + hexadecimal(c.magic as nat) + "\nversion: "@ + decimal(c.major_version as nat) + "."@
        + decimal(c.minor_version as nat) + "\ncp_count: "@ + decimal(c.constant_pool.len()) + "\ncp: [\n"@
        + render_pool(c.constant_pool) + "\n]\naccess_flags: "@ + hexadecimal(c.access_flags as nat)
        + "\nthis_class: "@ + decimal(c.this_class as nat) + "\nsuper_class: "@ + decimal(
        c.super_class as nat,
    ) + "\ninterfaces:"@ + render_interfaces(c.interfaces, c.interfaces.len()) + "\nfields:\n"@
        + render_fields(c.fields, c.fields.len()) + "methods:\n"@ + render_methods(
        c.methods,
        c.methods.len(),
    ) + "attributes:\n"@ + render_attributes(c.attributes, c.attributes.len(), "  "@)
}

impl ClassFile {
    /// The class as text.
    pub fn render(&self) -> (text: String)
        ensures
            text@ == render_class(self@),
    {
        let mut out = String::new();
        out.append("magic: ");
        push_hexadecimal(&mut out, self.magic as u64);
        out.append("\nversion: ");
        push_decimal(&mut out, self.major_version as u64);
        out.append(".");
        push_decimal(&mut out, self.minor_version as u64);
        out.append("\ncp_count: ");
        push_decimal(&mut out, self.constant_pool.len() as u64);
        out.append("\ncp: [\n");
        push_pool(&mut out, &self.constant_pool);
        out.append("\n]\naccess_flags: ");
        push_hexadecimal(&mut out, self.access_flags as u64);
        out.append("\nthis_class: ");
        push_decimal(&mut out, self.this_class as u64);
        out.append("\nsuper_class: ");
        push_decimal(&mut out, self.super_class as u64);
        out.append("\ninterfaces:");
        push_interfaces(&mut out, &self.interfaces);
        out.append("\nfields:\n");
        push_fields(&mut out, &self.fields);
        out.append("methods:\n");
        push_methods(&mut out, &self.methods);
        out.append("attributes:\n");
        push_attributes(&mut out, &self.attributes, "  ");
        assert(out@ =~= render_class(self@));
        out
    }
}

} // verus!
