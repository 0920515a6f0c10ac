use class_decoder::attribute::{attribute_kind, Attribute, AttributeKind, RecordComponentInfo};
use class_decoder::class::{ClassFile, FieldInfo, MethodInfo};
use class_decoder::constant_value::FieldValue;
use class_decoder::outline::{kind_text, push_value};
use class_decoder::records::LineNumberTableEntry;
use class_decoder::pool::{ConstantPool, ConstantPoolType, CpInfo};
use class_decoder::render::{push_decimal, push_hexadecimal, push_signed, push_two_digits};

fn decimal(n: u64) -> String {
    let mut out = String::new();
    push_decimal(&mut out, n);
    out
}

fn hexadecimal(n: u64) -> String {
    let mut out = String::new();
    push_hexadecimal(&mut out, n);
    out
}

fn signed(v: i64) -> String {
    let mut out = String::new();
    push_signed(&mut out, v);
    out
}

#[test]
fn numbers_in_decimal() {
    assert_eq!(decimal(0), "0");
    assert_eq!(decimal(7), "7");
    assert_eq!(decimal(10), "10");
    assert_eq!(decimal(65535), "65535");
    assert_eq!(decimal(1234567890), "1234567890");
    assert_eq!(decimal(u64::MAX), "18446744073709551615");
}

#[test]
fn numbers_in_hexadecimal() {
    assert_eq!(hexadecimal(0), "0");
    assert_eq!(hexadecimal(15), "f");
    assert_eq!(hexadecimal(16), "10");
    assert_eq!(hexadecimal(0xCAFEBABE), "cafebabe");
    assert_eq!(hexadecimal(0x0123456789abcdef), "123456789abcdef");
    assert_eq!(hexadecimal(u64::MAX), "ffffffffffffffff");
}

#[test]
fn signed_numbers() {
    assert_eq!(signed(0), "0");
    assert_eq!(signed(42), "42");
    assert_eq!(signed(-1), "-1");
    assert_eq!(signed(-42), "-42");
    assert_eq!(signed(i64::MAX), "9223372036854775807");
    assert_eq!(signed(i64::MIN), "-9223372036854775808");
    assert_eq!(signed(i32::MIN as i64), "-2147483648");
}

#[test]
fn appending_keeps_what_was_there() {
    let mut out = String::from("n=");
    push_decimal(&mut out, 12);
    out.push(' ');
    push_two_digits(&mut out, 3);
    out.push(' ');
    push_two_digits(&mut out, 10);
    out.push(' ');
    push_two_digits(&mut out, 255);
    out.push(' ');
    push_two_digits(&mut out, 0);
    assert_eq!(out, "n=12 03 10 255 00");
}

#[test]
fn every_kind_of_entry_as_text() {
    let cases: Vec<(ConstantPoolType, &str)> = vec![
        (ConstantPoolType::ConstantClass { name_idx: 4 }, "Class: (4)"),
        (
            ConstantPoolType::ConstantFieldRef { class_index: 8, name_and_type_idx: 9 },
            "FieldRef: class(8) name_and_type(9)",
        ),
        (
            ConstantPoolType::ConstantMethodRef { class_index: 2, name_and_type_idx: 3 },
            "MethodRef: class(2) name_and_type(3)",
        ),
        (
            ConstantPoolType::ConstantInterfaceMethodRef { class_index: 20, name_and_type_idx: 300 },
            "InterfaceMethodRef: class(20) name_and_type(300)",
        ),
        (ConstantPoolType::ConstantString { string_idx: 30 }, "String: (30)"),
        (ConstantPoolType::ConstantInteger { value: 42 }, "Integer: 42"),
        (ConstantPoolType::ConstantInteger { value: -42 }, "Integer: -42"),
        (ConstantPoolType::ConstantInteger { value: i32::MIN }, "Integer: -2147483648"),
        (ConstantPoolType::ConstantFloat { bits: 0x3f000000 }, "Float: 0x3f000000"),
        (ConstantPoolType::ConstantFloat { bits: 0 }, "Float: 0x0"),
        (ConstantPoolType::ConstantLong { value: 1234567890123 }, "Long: 1234567890123"),
        (ConstantPoolType::ConstantLong { value: i64::MIN }, "Long: -9223372036854775808"),
        (ConstantPoolType::ConstantDouble { bits: 0x3ff8000000000000 }, "Double: 0x3ff8000000000000"),
        (
            ConstantPoolType::ConstantNameAndType { name_idx: 5, desc_idx: 6 },
            "NameAndType: name(5) desc(6)",
        ),
        (
            ConstantPoolType::ConstantUtf8 { len: 5, value: "hello".to_string() },
            "Utf8: len(5) value(\"hello\")",
        ),
        (ConstantPoolType::ConstantUtf8 { len: 0, value: String::new() }, "Utf8: len(0) value(\"\")"),
        (
            ConstantPoolType::ConstantMethodHandle { ref_kind: 6, ref_idx: 48 },
            "MethodHandle: ref_kind(6) ref_idx(48)",
        ),
        (ConstantPoolType::ConstantMethodType { desc_idx: 65535 }, "MethodType: desc(65535)"),
        (
            ConstantPoolType::ConstantDynamic { bootstrap_method_attr_index: 0, name_and_type_index: 17 },
            "Dynamic: bootstrap_method_attr(0) name_and_type(17)",
        ),
        (
            ConstantPoolType::ConstantInvokeDynamic { bootstrap_method_attr_index: 1, name_and_type_index: 21 },
            "InvokeDynamic: bootstrap_method_attr(1) name_and_type(21)",
        ),
        (ConstantPoolType::ConstantModule { name_idx: 7 }, "Module: (7)"),
        (ConstantPoolType::ConstantPackage { name_idx: 14 }, "Package: (14)"),
    ];
    for (entry, expected) in cases {
        assert_eq!(entry.render(), expected);
    }
}

#[test]
fn slot_as_text() {
    let slot = CpInfo { tag: 7, info: Some(ConstantPoolType::ConstantClass { name_idx: 4 }) };
    assert_eq!(slot.render(), "tag: 07 info: { Class: (4) }");
    let slot = CpInfo { tag: 12, info: Some(ConstantPoolType::ConstantNameAndType { name_idx: 1, desc_idx: 2 }) };
    assert_eq!(slot.render(), "tag: 12 info: { NameAndType: name(1) desc(2) }");
    let unusable = CpInfo { tag: 0, info: None };
    assert_eq!(unusable.render(), "tag: 00 info: { None }");
}

#[test]
fn pool_as_text() {
    let mut pool = ConstantPool::new();
    assert_eq!(pool.render(), "");
    pool.push(CpInfo { tag: 5, info: Some(ConstantPoolType::ConstantLong { value: 1 }) });
    pool.push(CpInfo { tag: 1, info: Some(ConstantPoolType::ConstantUtf8 { len: 1, value: "x".to_string() }) });
    assert_eq!(
        pool.render(),
        "idx: 01 entry: { tag: 05 info: { Long: 1 } }\n\
         idx: 02 entry: { tag: 00 info: { None } }\n\
         idx: 03 entry: { tag: 01 info: { Utf8: len(1) value(\"x\") } }\n"
    );
    for i in 0..8 {
        pool.push(CpInfo { tag: 3, info: Some(ConstantPoolType::ConstantInteger { value: i }) });
    }
    let text = pool.render();
    assert_eq!(text.lines().count(), 11);
    assert_eq!(text.lines().nth(9).unwrap(), "idx: 10 entry: { tag: 03 info: { Integer: 6 } }");
}

#[test]
fn class_as_text() {
    let mut class = ClassFile::new(0xCAFEBABE);
    assert_eq!(
        class.render(),
        "magic: cafebabe\nversion: 0.0\ncp_count: 0\ncp: [\n\n]\naccess_flags: 0\nthis_class: 0\n\
         super_class: 0\ninterfaces:\nfields:\nmethods:\nattributes:\n"
    );
    class.major_version = 61;
    class.minor_version = 3;
    class.access_flags = 0x0021;
    class.this_class = 2;
    class.add_constant_pool_entry(CpInfo {
        tag: 1,
        info: Some(ConstantPoolType::ConstantUtf8 { len: 1, value: "A".to_string() }),
    });
    class.add_constant_pool_entry(CpInfo { tag: 7, info: Some(ConstantPoolType::ConstantClass { name_idx: 1 }) });
    assert_eq!(
        class.render(),
        "magic: cafebabe\nversion: 61.3\ncp_count: 2\ncp: [\n\
         idx: 01 entry: { tag: 01 info: { Utf8: len(1) value(\"A\") } }\n\
         idx: 02 entry: { tag: 07 info: { Class: (1) } }\n\
         \n]\naccess_flags: 21\nthis_class: 2\n\
         super_class: 0\ninterfaces:\nfields:\nmethods:\nattributes:\n"
    );
}

#[test]
fn tables_as_text_with_nesting() {
    let mut class = ClassFile::new(0xCAFEBABE);
    class.super_class = 3;
    class.interfaces_count = 2;
    class.interfaces = vec![4, 15];
    class.fields_count = 2;
    class.fields = vec![
        FieldInfo {
            access_flags: 0x19,
            name: "ANSWER".to_string(),
            descriptor: "I".to_string(),
            value: Some(FieldValue::Integer(-42)),
            attributes: vec![Attribute::ConstantValue {
                attribute_name_index: 14,
                attribute_length: 2,
                constant_value_index: 15,
            }],
        },
        FieldInfo {
            access_flags: 2,
            name: "count".to_string(),
            descriptor: "J".to_string(),
            value: None,
            attributes: vec![],
        },
    ];
    class.methods_count = 1;
    class.methods = vec![MethodInfo {
        access_flags: 1,
        name_index: 5,
        descriptor_index: 6,
        attributes_count: 2,
        attributes: vec![
            Attribute::Code {
                attribute_name_index: 31,
                attribute_length: 29,
                max_stack: 1,
                max_locals: 1,
                code_length: 1,
                code: vec![0xB1],
                exception_table_length: 0,
                exception_table: vec![],
                attributes_count: 2,
                attributes: vec![
                    Attribute::LineNumberTable {
                        attribute_name_index: 32,
                        attribute_length: 6,
                        line_number_table_length: 1,
                        line_number_table: vec![LineNumberTableEntry { start_pc: 0, line_number: 1 }],
                    },
                    Attribute::Unknown { attribute_name_index: 40, attribute_length: 0, info: vec![] },
                ],
            },
            Attribute::Deprecated { attribute_name_index: 33, attribute_length: 0 },
        ],
    }];
    class.attributes_count = 2;
    class.attributes = vec![
        Attribute::SourceFile { attribute_name_index: 36, attribute_length: 2, sourcefile_index: 37 },
        Attribute::Record {
            attribute_name_index: 45,
            attribute_length: 16,
            component_count: 1,
            components: vec![RecordComponentInfo {
                name_index: 11,
                descriptor_index: 12,
                attributes_count: 1,
                attributes: vec![Attribute::Signature {
                    attribute_name_index: 20,
                    attribute_length: 2,
                    signature_index: 21,
                }],
            }],
        },
    ];
    let text = class.render();
    let tables = &text[text.find("super_class").unwrap()..];
    assert_eq!(
        tables,
        "super_class: 3\n\
         interfaces: 4 15\n\
         fields:\n\
         \x20 field ANSWER I flags(19) = -42\n\
         \x20   ConstantValue name(14) length(2)\n\
         \x20 field count J flags(2)\n\
         methods:\n\
         \x20 method name(5) descriptor(6) flags(1)\n\
         \x20   Code name(31) length(29)\n\
         \x20     LineNumberTable name(32) length(6)\n\
         \x20     Unknown name(40) length(0)\n\
         \x20   Deprecated name(33) length(0)\n\
         attributes:\n\
         \x20 SourceFile name(36) length(2)\n\
         \x20 Record name(45) length(16)\n\
         \x20   component name(11) descriptor(12)\n\
         \x20     Signature name(20) length(2)\n"
    );
}

#[test]
fn constants_of_fields_as_text() {
    let cases: Vec<(FieldValue, &str)> = vec![
        (FieldValue::Integer(0), "0"),
        (FieldValue::Integer(i32::MIN), "-2147483648"),
        (FieldValue::Float(0x3f000000), "0x3f000000"),
        (FieldValue::Long(i64::MAX), "9223372036854775807"),
        (FieldValue::Double(0x3ff8000000000000), "0x3ff8000000000000"),
        (FieldValue::Text("hi \"there\"".to_string()), "\"hi \"there\"\""),
        (FieldValue::Text(String::new()), "\"\""),
    ];
    for (value, expected) in cases {
        let mut out = String::from(">");
        push_value(&mut out, &value);
        assert_eq!(out, format!(">{}", expected));
    }
}

#[test]
fn names_of_kinds() {
    assert_eq!(kind_text(AttributeKind::Code), "Code");
    assert_eq!(kind_text(AttributeKind::RuntimeInvisibleParameterAnnotations), "RuntimeInvisibleParameterAnnotations");
    assert_eq!(kind_text(AttributeKind::Unknown), "Unknown");
    for name in ["ConstantValue", "StackMapTable", "Module", "PermittedSubclasses", "NestHost"] {
        assert_eq!(kind_text(attribute_kind(name)), name);
    }
}
