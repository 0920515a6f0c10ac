use class_decoder::access_flags::{FieldAccessFlags, MethodAccessFlags, ACC_FINAL, ACC_PUBLIC, ACC_STATIC};
use class_decoder::attribute::{attribute_kind, AttributeKind};
use class_decoder::class::ClassFile;
use class_decoder::constant_value::{constant_value, FieldValue};
use class_decoder::cursor::Cursor;
use class_decoder::error::DecompileError;
use class_decoder::pool::{resolve_utf8_cp_entry, ConstantPool, ConstantPoolType, CpInfo};
use class_decoder::pool_decoder::{read_constant_pool, read_cp_info};
use class_decoder::text::same_text;

fn entry(tag: u8, info: ConstantPoolType) -> CpInfo {
    CpInfo { tag, info: Some(info) }
}

fn utf8(text: &str) -> CpInfo {
    entry(1, ConstantPoolType::ConstantUtf8 { len: text.len() as u16, value: text.to_string() })
}

#[test]
fn empty_pool_resolves_nothing() {
    let pool = ConstantPool::new();
    assert_eq!(pool.len(), 0);
    assert!(pool.get(0).is_none());
    assert!(pool.get(1).is_none());
    assert!(pool.get(usize::MAX).is_none());
}

#[test]
fn pool_is_addressed_from_one() {
    let mut pool = ConstantPool::new();
    pool.push(utf8("first"));
    pool.push(entry(3, ConstantPoolType::ConstantInteger { value: 7 }));
    assert_eq!(pool.len(), 2);
    assert!(pool.get(0).is_none());
    assert_eq!(pool.get(1).unwrap().tag, 1);
    assert_eq!(pool.get(2).unwrap().tag, 3);
    assert!(pool.get(3).is_none());
    assert_eq!(pool.slot(0).tag, 1);
    assert_eq!(pool.slot(1).tag, 3);
}

#[test]
fn pushing_a_long_or_double_takes_two_slots() {
    let mut pool = ConstantPool::new();
    pool.push(entry(5, ConstantPoolType::ConstantLong { value: 9 }));
    assert_eq!(pool.len(), 2);
    pool.push(entry(3, ConstantPoolType::ConstantInteger { value: 1 }));
    assert_eq!(pool.len(), 3);
    pool.push(entry(6, ConstantPoolType::ConstantDouble { bits: 0 }));
    assert_eq!(pool.len(), 5);
    assert!(pool.get(1).is_some());
    assert!(pool.get(2).is_none());
    assert!(pool.get(3).is_some());
    assert!(pool.get(4).is_some());
    assert!(pool.get(5).is_none());
    assert_eq!(pool.slot(1).tag, 0);
    assert!(pool.slot(1).info.is_none());
    assert!(pool.slot(4).info.is_none());
    assert!(matches!(
        resolve_utf8_cp_entry(&pool, 2, 11),
        Err(DecompileError::NoSuchConstantPoolEntry(2, 11))
    ));
    assert!(matches!(
        resolve_utf8_cp_entry(&pool, 5, 12),
        Err(DecompileError::NoSuchConstantPoolEntry(5, 12))
    ));
    assert!(matches!(resolve_utf8_cp_entry(&pool, 1, 0), Err(DecompileError::InvalidUtf8ConstantPoolEntry(1))));
}

#[test]
fn class_file_starts_blank_and_grows_its_pool() {
    let mut class = ClassFile::new(0xCAFEBABE);
    assert_eq!(class.magic, 0xCAFEBABE);
    assert_eq!(class.major_version, 0);
    assert_eq!(class.minor_version, 0);
    assert_eq!(class.get_constant_pool_size(), 0);
    assert!(class.get_constant_pool_entry(0).is_none());
    assert!(class.get_constant_pool_entry(1).is_none());
    assert!(class.interfaces.is_empty());
    assert!(class.fields.is_empty());
    assert!(class.methods.is_empty());
    assert!(class.attributes.is_empty());
    class.add_constant_pool_entry(utf8("x"));
    class.add_constant_pool_entry(entry(5, ConstantPoolType::ConstantLong { value: -1 }));
    assert_eq!(class.get_constant_pool_size(), 3);
    assert_eq!(class.get_constant_pool_entry(1).unwrap().tag, 1);
    assert_eq!(class.get_constant_pool_entry(2).unwrap().tag, 5);
    assert!(class.get_constant_pool_entry(3).is_none());
    assert!(class.get_constant_pool_entry(4).is_none());
}

#[test]
fn constants_that_a_field_can_have() {
    let mut pool = ConstantPool::new();
    pool.push(entry(3, ConstantPoolType::ConstantInteger { value: -5 }));
    pool.push(entry(4, ConstantPoolType::ConstantFloat { bits: 0x40490FDB }));
    pool.push(entry(5, ConstantPoolType::ConstantLong { value: i64::MIN }));
    pool.push(entry(6, ConstantPoolType::ConstantDouble { bits: 0x4000000000000000 }));
    pool.push(entry(8, ConstantPoolType::ConstantString { string_idx: 8 }));
    pool.push(utf8("text"));
    pool.push(entry(7, ConstantPoolType::ConstantClass { name_idx: 8 }));
    pool.push(entry(8, ConstantPoolType::ConstantString { string_idx: 1 }));
    pool.push(entry(8, ConstantPoolType::ConstantString { string_idx: 40 }));
    assert!(matches!(constant_value(&pool, 1, 0), Ok(FieldValue::Integer(-5))));
    assert!(matches!(constant_value(&pool, 2, 0), Ok(FieldValue::Float(0x40490FDB))));
    assert!(matches!(constant_value(&pool, 3, 0), Ok(FieldValue::Long(i64::MIN))));
    assert!(matches!(constant_value(&pool, 4, 3), Err(DecompileError::NoSuchConstantPoolEntry(4, 3))));
    assert!(matches!(constant_value(&pool, 5, 0), Ok(FieldValue::Double(0x4000000000000000))));
    assert!(matches!(constant_value(&pool, 6, 3), Err(DecompileError::NoSuchConstantPoolEntry(6, 3))));
    match constant_value(&pool, 7, 0) {
        Ok(FieldValue::Text(text)) => assert_eq!(text, "text"),
        other => panic!("unexpected: {:?}", other),
    }
    assert!(matches!(constant_value(&pool, 8, 0), Err(DecompileError::InvalidConstantValue(8))));
    assert!(matches!(constant_value(&pool, 9, 0), Err(DecompileError::InvalidConstantValue(9))));
    assert!(matches!(constant_value(&pool, 10, 0), Err(DecompileError::InvalidUtf8ConstantPoolEntry(1))));
    assert!(matches!(constant_value(&pool, 11, 6), Err(DecompileError::NoSuchConstantPoolEntry(40, 6))));
    assert!(matches!(constant_value(&pool, 0, 6), Err(DecompileError::NoSuchConstantPoolEntry(0, 6))));
    assert!(matches!(constant_value(&pool, 12, 6), Err(DecompileError::NoSuchConstantPoolEntry(12, 6))));
}

#[test]
fn every_tag_selects_its_kind_of_entry() {
    let cases: Vec<(Vec<u8>, &str)> = vec![
        (vec![1, 0, 2, b'h', b'i'], "ConstantUtf8 { len: 2, value: \"hi\" }"),
        (vec![3, 0xFF, 0xFF, 0xFF, 0xFE], "ConstantInteger { value: -2 }"),
        (vec![4, 0x3F, 0x80, 0, 0], "ConstantFloat { bits: 1065353216 }"),
        (vec![5, 0x80, 0, 0, 0, 0, 0, 0, 1], "ConstantLong { value: -9223372036854775807 }"),
        (vec![6, 0x3F, 0xF0, 0, 0, 0, 0, 0, 0], "ConstantDouble { bits: 4607182418800017408 }"),
        (vec![7, 1, 2], "ConstantClass { name_idx: 258 }"),
        (vec![8, 0, 3], "ConstantString { string_idx: 3 }"),
        (vec![9, 0, 1, 0, 2], "ConstantFieldRef { class_index: 1, name_and_type_idx: 2 }"),
        (vec![10, 0, 3, 0, 4], "ConstantMethodRef { class_index: 3, name_and_type_idx: 4 }"),
        (vec![11, 0, 5, 0, 6], "ConstantInterfaceMethodRef { class_index: 5, name_and_type_idx: 6 }"),
        (vec![12, 0, 7, 0, 8], "ConstantNameAndType { name_idx: 7, desc_idx: 8 }"),
        (vec![15, 6, 0, 9], "ConstantMethodHandle { ref_kind: 6, ref_idx: 9 }"),
        (vec![16, 0, 10], "ConstantMethodType { desc_idx: 10 }"),
        (vec![17, 0, 11, 0, 12], "ConstantDynamic { bootstrap_method_attr_index: 11, name_and_type_index: 12 }"),
        (vec![18, 0, 13, 0, 14], "ConstantInvokeDynamic { bootstrap_method_attr_index: 13, name_and_type_index: 14 }"),
        (vec![19, 0, 15], "ConstantModule { name_idx: 15 }"),
        (vec![20, 0, 16], "ConstantPackage { name_idx: 16 }"),
    ];
    for (bytes, expected) in cases {
        let mut cur = Cursor::new(&bytes);
        let slot = read_cp_info(&mut cur, 1).unwrap();
        assert_eq!(slot.tag, bytes[0]);
        assert_eq!(format!("{:?}", slot.info.unwrap()), expected);
        assert_eq!(cur.position() as usize, bytes.len());
        for cut in 1..bytes.len() {
            let mut short = Cursor::new(&bytes[..cut]);
            assert!(
                matches!(read_cp_info(&mut short, 1), Err(DecompileError::UnexpectedEof(_))),
                "tag {} cut to {} bytes",
                bytes[0],
                cut
            );
        }
    }
}

#[test]
fn tags_without_a_kind() {
    for tag in [0u8, 2, 13, 14, 21, 22, 100, 255] {
        let bytes = [tag, 0, 0, 0, 0, 0, 0, 0, 0];
        let mut cur = Cursor::new(&bytes);
        match read_cp_info(&mut cur, 1) {
            Err(DecompileError::InvalidConstantPoolTag(t, 0)) => assert_eq!(t, tag),
            other => panic!("unexpected: {:?}", other),
        }
    }
}

#[test]
fn pool_of_a_declared_count() {
    let bytes = [3, 0, 0, 0, 1, 5, 0, 0, 0, 0, 0, 0, 0, 2, 7, 0, 1, 0xAA];
    let mut cur = Cursor::new(&bytes);
    let pool = read_constant_pool(&mut cur, 5).unwrap();
    assert_eq!(pool.len(), 4);
    assert_eq!(cur.position(), 17);
    assert!(pool.get(3).is_none());
    assert!(matches!(pool.get(4).unwrap().info, Some(ConstantPoolType::ConstantClass { name_idx: 1 })));
    let mut cur = Cursor::new(&bytes);
    let pool = read_constant_pool(&mut cur, 1).unwrap();
    assert_eq!(pool.len(), 0);
    assert_eq!(cur.position(), 0);
    let mut cur = Cursor::new(&bytes);
    let pool = read_constant_pool(&mut cur, 2).unwrap();
    assert_eq!(pool.len(), 1);
    assert_eq!(cur.position(), 5);
    let mut cur = Cursor::new(&bytes);
    assert!(matches!(
        read_constant_pool(&mut cur, 3),
        Err(DecompileError::NoSuchConstantPoolEntry(3, 5))
    ));
    let mut cur = Cursor::new(&bytes);
    assert!(matches!(
        read_constant_pool(&mut cur, 6),
        Err(DecompileError::InvalidConstantPoolTag(0xAA, 17))
    ));
}

#[test]
fn comparing_text() {
    assert!(same_text("", ""));
    assert!(same_text("Code", "Code"));
    assert!(!same_text("Code", "code"));
    assert!(!same_text("Code", "Code "));
    assert!(!same_text("Code", "Cod"));
    assert!(!same_text("", "x"));
    assert!(same_text("h\u{e9}llo \u{1F600}", "h\u{e9}llo \u{1F600}"));
    assert!(!same_text("h\u{e9}llo", "hello"));
}

#[test]
fn attribute_names_select_kinds() {
    assert!(matches!(attribute_kind("ConstantValue"), AttributeKind::ConstantValue));
    assert!(matches!(attribute_kind("Code"), AttributeKind::Code));
    assert!(matches!(attribute_kind("StackMapTable"), AttributeKind::StackMapTable));
    assert!(matches!(attribute_kind("Exceptions"), AttributeKind::Exceptions));
    assert!(matches!(attribute_kind("InnerClasses"), AttributeKind::InnerClasses));
    assert!(matches!(attribute_kind("EnclosingMethod"), AttributeKind::EnclosingMethod));
    assert!(matches!(attribute_kind("Synthetic"), AttributeKind::Synthetic));
    assert!(matches!(attribute_kind("Signature"), AttributeKind::Signature));
    assert!(matches!(attribute_kind("SourceFile"), AttributeKind::SourceFile));
    assert!(matches!(attribute_kind("SourceDebugExtension"), AttributeKind::SourceDebugExtension));
    assert!(matches!(attribute_kind("LineNumberTable"), AttributeKind::LineNumberTable));
    assert!(matches!(attribute_kind("LocalVariableTable"), AttributeKind::LocalVariableTable));
    assert!(matches!(attribute_kind("LocalVariableTypeTable"), AttributeKind::LocalVariableTypeTable));
    assert!(matches!(attribute_kind("Deprecated"), AttributeKind::Deprecated));
    assert!(matches!(
        attribute_kind("RuntimeVisibleAnnotations"),
        AttributeKind::RuntimeVisibleAnnotations
    ));
    assert!(matches!(
        attribute_kind("RuntimeInvisibleAnnotations"),
        AttributeKind::RuntimeInvisibleAnnotations
    ));
    assert!(matches!(
        attribute_kind("RuntimeVisibleParameterAnnotations"),
        AttributeKind::RuntimeVisibleParameterAnnotations
    ));
    assert!(matches!(
        attribute_kind("RuntimeInvisibleParameterAnnotations"),
        AttributeKind::RuntimeInvisibleParameterAnnotations
    ));
    assert!(matches!(
        attribute_kind("RuntimeVisibleTypeAnnotations"),
        AttributeKind::RuntimeVisibleTypeAnnotations
    ));
    assert!(matches!(
        attribute_kind("RuntimeInvisibleTypeAnnotations"),
        AttributeKind::RuntimeInvisibleTypeAnnotations
    ));
    assert!(matches!(attribute_kind("AnnotationDefault"), AttributeKind::AnnotationDefault));
    assert!(matches!(attribute_kind("BootstrapMethods"), AttributeKind::BootstrapMethods));
    assert!(matches!(attribute_kind("MethodParameters"), AttributeKind::MethodParameters));
    assert!(matches!(attribute_kind("Module"), AttributeKind::Module));
    assert!(matches!(attribute_kind("ModulePackages"), AttributeKind::ModulePackages));
    assert!(matches!(attribute_kind("ModuleMainClass"), AttributeKind::ModuleMainClass));
    assert!(matches!(attribute_kind("NestHost"), AttributeKind::NestHost));
    assert!(matches!(attribute_kind("NestMembers"), AttributeKind::NestMembers));
    assert!(matches!(attribute_kind("Record"), AttributeKind::Record));
    assert!(matches!(attribute_kind("PermittedSubclasses"), AttributeKind::PermittedSubclasses));
    assert!(matches!(attribute_kind("Unknown"), AttributeKind::Unknown));
    assert!(matches!(attribute_kind(""), AttributeKind::Unknown));
    assert!(matches!(attribute_kind("code"), AttributeKind::Unknown));
    assert!(matches!(attribute_kind("org.example.Custom"), AttributeKind::Unknown));
}

#[test]
fn access_flag_masks() {
    let flags = FieldAccessFlags { bits: 0x0019 };
    assert!(flags.contains(ACC_PUBLIC));
    assert!(flags.contains(ACC_STATIC));
    assert!(flags.contains(ACC_FINAL));
    assert!(flags.contains(ACC_PUBLIC | ACC_STATIC | ACC_FINAL));
    assert!(!flags.contains(0x0002));
    assert!(!flags.contains(ACC_PUBLIC | 0x0002));
    assert!(flags.contains(0));
    assert!(flags.is_static());
    assert!(!FieldAccessFlags { bits: 0x0002 }.is_static());
    let method = MethodAccessFlags { bits: 0x1041 };
    assert!(method.contains(0x1000));
    assert!(method.contains(0x0040));
    assert!(!method.contains(0x0400));
}
