use class_decoder::attribute::{Attribute, AttributeKind};
use class_decoder::constant_value::FieldValue;
use class_decoder::decompile::decode_class;
use class_decoder::error::DecompileError;
use class_decoder::pool::ConstantPoolType;

/// Builds class file bytes field by field.
struct Bytes(Vec<u8>);

impl Bytes {
    fn class_header() -> Bytes {
        Bytes(Vec::new()).u32(0xCAFEBABE).u16(0).u16(52)
    }
    fn u8(mut self, v: u8) -> Bytes {
        self.0.push(v);
        self
    }
    fn u16(mut self, v: u16) -> Bytes {
        self.0.extend_from_slice(&v.to_be_bytes());
        self
    }
    fn u32(mut self, v: u32) -> Bytes {
        self.0.extend_from_slice(&v.to_be_bytes());
        self
    }
    fn raw(mut self, v: &[u8]) -> Bytes {
        self.0.extend_from_slice(v);
        self
    }
    fn utf8(self, text: &str) -> Bytes {
        self.u8(1).u16(text.len() as u16).raw(text.as_bytes())
    }
    fn integer(self, v: i32) -> Bytes {
        self.u8(3).raw(&v.to_be_bytes())
    }
    /// Access flags, this class, super class, and no interfaces.
    fn class_numbers(self) -> Bytes {
        self.u16(0x0021).u16(0).u16(0).u16(0)
    }
    fn len(&self) -> u64 {
        self.0.len() as u64
    }
}

fn expect_err(bytes: &[u8]) -> DecompileError {
    match decode_class(bytes) {
        Ok(class) => panic!("decoded: {:?}", class),
        Err(e) => e,
    }
}

#[test]
fn one_byte_file_is_unexpected_eof() {
    assert!(matches!(expect_err(&[0xCA]), DecompileError::UnexpectedEof(0)));
}

#[test]
fn empty_file_is_unexpected_eof() {
    assert!(matches!(expect_err(&[]), DecompileError::UnexpectedEof(0)));
}

#[test]
fn three_bytes_of_magic_are_unexpected_eof() {
    assert!(matches!(expect_err(&[0xCA, 0xFE, 0xBA]), DecompileError::UnexpectedEof(0)));
}

#[test]
fn magic_with_truncated_minor_version() {
    assert!(matches!(expect_err(&[0xCA, 0xFE, 0xBA, 0xBE]), DecompileError::UnexpectedEof(4)));
    assert!(matches!(expect_err(&[0xCA, 0xFE, 0xBA, 0xBE, 0]), DecompileError::UnexpectedEof(4)));
}

#[test]
fn magic_with_truncated_major_version() {
    assert!(matches!(expect_err(&[0xCA, 0xFE, 0xBA, 0xBE, 0, 0]), DecompileError::UnexpectedEof(6)));
    assert!(matches!(
        expect_err(&[0xCA, 0xFE, 0xBA, 0xBE, 0, 0, 0]),
        DecompileError::UnexpectedEof(6)
    ));
}

#[test]
fn missing_pool_count() {
    assert!(matches!(
        expect_err(&[0xCA, 0xFE, 0xBA, 0xBE, 0, 0, 0, 52, 0]),
        DecompileError::UnexpectedEof(8)
    ));
}

#[test]
fn wrong_magic_is_reported_with_its_value() {
    let bytes = Bytes(Vec::new()).u32(0xDEADBEEF).u16(0).u16(52).u16(1).0;
    assert!(matches!(expect_err(&bytes), DecompileError::InvalidMagicNumber(0xDEADBEEF)));
}

#[test]
fn pool_count_of_one_gives_an_empty_pool() {
    let bytes = Bytes::class_header().u16(1).class_numbers().u16(0).u16(0).u16(0).0;
    let class = decode_class(&bytes).unwrap();
    assert_eq!(class.get_constant_pool_size(), 0);
    assert!(class.get_constant_pool_entry(0).is_none());
    assert!(class.get_constant_pool_entry(1).is_none());
    assert_eq!(class.major_version, 52);
    assert_eq!(class.access_flags, 0x0021);
    assert!(class.fields.is_empty());
    assert!(class.methods.is_empty());
    assert!(class.attributes.is_empty());
}

#[test]
fn pool_count_of_zero_gives_an_empty_pool() {
    let bytes = Bytes::class_header().u16(0).class_numbers().u16(0).u16(0).u16(0).0;
    let class = decode_class(&bytes).unwrap();
    assert_eq!(class.get_constant_pool_size(), 0);
}

#[test]
fn unknown_pool_tag_is_reported_with_its_offset() {
    let bytes = Bytes::class_header().u16(2).u8(2).u16(0).0;
    assert!(matches!(expect_err(&bytes), DecompileError::InvalidConstantPoolTag(2, 10)));
    let bytes = Bytes::class_header().u16(3).integer(7).u8(13).0;
    assert!(matches!(expect_err(&bytes), DecompileError::InvalidConstantPoolTag(13, 15)));
    let bytes = Bytes::class_header().u16(2).u8(21).0;
    assert!(matches!(expect_err(&bytes), DecompileError::InvalidConstantPoolTag(21, 10)));
    let bytes = Bytes::class_header().u16(2).u8(0).0;
    assert!(matches!(expect_err(&bytes), DecompileError::InvalidConstantPoolTag(0, 10)));
}

#[test]
fn pool_entry_cut_short() {
    let bytes = Bytes::class_header().u16(2).u8(3).raw(&[0, 0, 0]).0;
    assert!(matches!(expect_err(&bytes), DecompileError::UnexpectedEof(11)));
    let bytes = Bytes::class_header().u16(2).u8(1).u16(5).raw(b"abcd").0;
    assert!(matches!(expect_err(&bytes), DecompileError::UnexpectedEof(13)));
    let bytes = Bytes::class_header().u16(2).u8(1).u8(0).0;
    assert!(matches!(expect_err(&bytes), DecompileError::UnexpectedEof(11)));
    let bytes = Bytes::class_header().u16(2).0;
    assert!(matches!(expect_err(&bytes), DecompileError::UnexpectedEof(10)));
}

#[test]
fn utf8_entry_must_be_valid_utf8() {
    let bytes = Bytes::class_header().u16(2).u8(1).u16(2).raw(&[0xFF, 0xFE]).class_numbers().0;
    assert!(matches!(expect_err(&bytes), DecompileError::InvalidUtf8ConstantPoolEntry(1)));
    let bytes = Bytes::class_header().u16(3).utf8("ok").u8(1).u16(1).raw(&[0x80]).0;
    assert!(matches!(expect_err(&bytes), DecompileError::InvalidUtf8ConstantPoolEntry(2)));
}

#[test]
fn utf8_entry_with_the_two_byte_null_of_the_class_format_is_rejected() {
    let bytes = Bytes::class_header().u16(2).u8(1).u16(2).raw(&[0xC0, 0x80]).class_numbers().0;
    assert!(matches!(expect_err(&bytes), DecompileError::InvalidUtf8ConstantPoolEntry(1)));
}

#[test]
fn utf8_entry_with_a_plain_null_byte_and_longer_characters() {
    let text = "a\u{0}b\u{e9}\u{20ac}\u{1F600}";
    let bytes = Bytes::class_header().u16(2).utf8(text).class_numbers().u16(0).u16(0).u16(0).0;
    let class = decode_class(&bytes).unwrap();
    match &class.get_constant_pool_entry(1).unwrap().info {
        Some(ConstantPoolType::ConstantUtf8 { len, value }) => {
            assert_eq!(*len as usize, text.len());
            assert_eq!(value, text);
            assert_eq!(value.chars().count(), 6);
        }
        other => panic!("not a Utf8 entry: {:?}", other),
    }
}

#[test]
fn long_in_the_last_slot_has_no_room_for_its_second_half() {
    let bytes = Bytes::class_header().u16(2).u8(5).raw(&[0; 8]).class_numbers().0;
    assert!(matches!(expect_err(&bytes), DecompileError::NoSuchConstantPoolEntry(2, 10)));
    let bytes = Bytes::class_header().u16(3).integer(1).u8(6).raw(&[0; 8]).class_numbers().0;
    assert!(matches!(expect_err(&bytes), DecompileError::NoSuchConstantPoolEntry(3, 15)));
}

#[test]
fn long_takes_two_slots() {
    let bytes = Bytes::class_header()
        .u16(4)
        .u8(5)
        .raw(&(-2i64).to_be_bytes())
        .integer(-1)
        .class_numbers()
        .u16(0)
        .u16(0)
        .u16(0)
        .0;
    let class = decode_class(&bytes).unwrap();
    assert_eq!(class.get_constant_pool_size(), 3);
    assert!(matches!(
        class.get_constant_pool_entry(1).unwrap().info,
        Some(ConstantPoolType::ConstantLong { value: -2 })
    ));
    assert!(class.get_constant_pool_entry(2).is_none());
    assert!(matches!(
        class.get_constant_pool_entry(3).unwrap().info,
        Some(ConstantPoolType::ConstantInteger { value: -1 })
    ));
}

/// A class with the pool `pool` (already holding its entries), of `count`,
/// and one field with the attributes in `attrs`.
fn class_with_field(count: u16, pool: Bytes, attributes_count: u16, attrs: &[u8]) -> Vec<u8> {
    pool_after_header(count, pool)
        .class_numbers()
        .u16(1)
        .u16(0x0019)
        .u16(1)
        .u16(2)
        .u16(attributes_count)
        .raw(attrs)
        .u16(0)
        .u16(0)
        .0
}

fn pool_after_header(count: u16, pool: Bytes) -> Bytes {
    Bytes::class_header().u16(count).raw(&pool.0)
}

/// Entries 1 to 3: the field's name, its descriptor, and `ConstantValue`.
fn field_pool() -> Bytes {
    Bytes(Vec::new()).utf8("X").utf8("I").utf8("ConstantValue")
}

#[test]
fn constant_value_of_a_field_ref_is_rejected() {
    let pool = field_pool().u8(9).u16(1).u16(2);
    let attr = Bytes(Vec::new()).u16(3).u32(2).u16(4).0;
    let bytes = class_with_field(5, pool, 1, &attr);
    assert!(matches!(expect_err(&bytes), DecompileError::InvalidConstantValue(4)));
}

#[test]
fn constant_value_of_text_is_rejected() {
    let attr = Bytes(Vec::new()).u16(3).u32(2).u16(1).0;
    let bytes = class_with_field(4, field_pool(), 1, &attr);
    assert!(matches!(expect_err(&bytes), DecompileError::InvalidConstantValue(1)));
}

#[test]
fn constant_value_index_out_of_the_pool() {
    let attr = Bytes(Vec::new()).u16(3).u32(2).u16(9).0;
    let pool = field_pool();
    let at = pool_after_header(4, field_pool()).len() + 10 + 8 + 6 + 2;
    let bytes = class_with_field(4, pool, 1, &attr);
    match expect_err(&bytes) {
        DecompileError::NoSuchConstantPoolEntry(9, offset) => assert_eq!(offset, at),
        other => panic!("unexpected: {:?}", other),
    }
    let attr = Bytes(Vec::new()).u16(3).u32(2).u16(0).0;
    let bytes = class_with_field(4, field_pool(), 1, &attr);
    assert!(matches!(expect_err(&bytes), DecompileError::NoSuchConstantPoolEntry(0, _)));
}

#[test]
fn constant_value_of_a_string_resolves_to_its_text() {
    let pool = field_pool().u8(8).u16(5).utf8("hi there");
    let attr = Bytes(Vec::new()).u16(3).u32(2).u16(4).0;
    let bytes = class_with_field(6, pool, 1, &attr);
    let class = decode_class(&bytes).unwrap();
    match &class.fields[0].value {
        Some(FieldValue::Text(text)) => assert_eq!(text, "hi there"),
        other => panic!("unexpected: {:?}", other),
    }
}

#[test]
fn constant_value_of_a_string_that_names_no_text() {
    let pool = field_pool().u8(8).u16(5).integer(3);
    let attr = Bytes(Vec::new()).u16(3).u32(2).u16(4).0;
    let bytes = class_with_field(6, pool, 1, &attr);
    assert!(matches!(expect_err(&bytes), DecompileError::InvalidUtf8ConstantPoolEntry(5)));
    let pool = field_pool().u8(8).u16(7).integer(3);
    let bytes = class_with_field(6, pool, 1, &attr);
    assert!(matches!(expect_err(&bytes), DecompileError::NoSuchConstantPoolEntry(7, _)));
}

#[test]
fn constant_value_must_have_length_two() {
    let pool = field_pool().integer(5);
    let attr = Bytes(Vec::new()).u16(3).u32(4).u16(4).u16(0).0;
    let body = pool_after_header(5, field_pool().integer(5)).len() + 10 + 8 + 6;
    let bytes = class_with_field(5, pool, 1, &attr);
    match expect_err(&bytes) {
        DecompileError::AttributeLengthMismatch(3, 4, at) => assert_eq!(at, body + 2),
        other => panic!("unexpected: {:?}", other),
    }
    let attr = Bytes(Vec::new()).u16(3).u32(1).u8(0).0;
    let bytes = class_with_field(5, field_pool().integer(5), 1, &attr);
    match expect_err(&bytes) {
        DecompileError::AttributeLengthMismatch(3, 1, at) => assert_eq!(at, body),
        other => panic!("unexpected: {:?}", other),
    }
    let attr = Bytes(Vec::new()).u16(3).u32(0).0;
    let bytes = class_with_field(5, field_pool().integer(5), 1, &attr);
    assert!(matches!(expect_err(&bytes), DecompileError::AttributeLengthMismatch(3, 0, _)));
}

#[test]
fn second_constant_value_on_a_field_is_rejected() {
    let pool = field_pool().integer(5).integer(6);
    let attrs = Bytes(Vec::new()).u16(3).u32(2).u16(4).u16(3).u32(2).u16(5).0;
    let bytes = class_with_field(6, pool, 2, &attrs);
    assert!(matches!(expect_err(&bytes), DecompileError::InvalidConstantValue(5)));
}

#[test]
fn attribute_name_that_is_an_integer_is_rejected() {
    let pool = field_pool().integer(5);
    let attr = Bytes(Vec::new()).u16(4).u32(0).0;
    let bytes = class_with_field(5, pool, 1, &attr);
    assert!(matches!(expect_err(&bytes), DecompileError::InvalidUtf8ConstantPoolEntry(4)));
}

#[test]
fn attribute_name_out_of_the_pool() {
    let attr = Bytes(Vec::new()).u16(40).u32(0).0;
    let at = pool_after_header(4, field_pool()).len() + 10 + 8 + 6;
    let bytes = class_with_field(4, field_pool(), 1, &attr);
    match expect_err(&bytes) {
        DecompileError::NoSuchConstantPoolEntry(40, offset) => assert_eq!(offset, at),
        other => panic!("unexpected: {:?}", other),
    }
}

#[test]
fn field_name_must_resolve() {
    let pool = Bytes(Vec::new()).integer(1).utf8("I");
    let at = pool_after_header(3, Bytes(Vec::new()).integer(1).utf8("I")).len() + 10 + 8;
    let bytes = class_with_field(3, pool, 0, &[]);
    assert!(matches!(expect_err(&bytes), DecompileError::InvalidUtf8ConstantPoolEntry(1)));
    let pool = Bytes(Vec::new()).utf8("X");
    let bytes = class_with_field(2, pool, 0, &[]);
    match expect_err(&bytes) {
        DecompileError::NoSuchConstantPoolEntry(2, offset) => assert_eq!(offset, at - 5),
        other => panic!("unexpected: {:?}", other),
    }
}

#[test]
fn unknown_attribute_is_kept_and_decoding_goes_on() {
    let pool = field_pool().utf8("com.example.Vendor").integer(9);
    let attrs = Bytes(Vec::new())
        .u16(4)
        .u32(5)
        .raw(&[0xDE, 0xAD, 0xBE, 0xEF, 0x01])
        .u16(3)
        .u32(2)
        .u16(5)
        .u16(4)
        .u32(0)
        .0;
    let bytes = class_with_field(6, pool, 3, &attrs);
    let class = decode_class(&bytes).unwrap();
    let field = &class.fields[0];
    assert_eq!(field.attributes.len(), 3);
    match &field.attributes[0] {
        Attribute::Unknown { attribute_name_index, attribute_length, info } => {
            assert_eq!(*attribute_name_index, 4);
            assert_eq!(*attribute_length, 5);
            assert_eq!(info, &vec![0xDE, 0xAD, 0xBE, 0xEF, 0x01]);
        }
        other => panic!("not kept as unknown: {:?}", other),
    }
    assert!(matches!(field.attributes[1], Attribute::ConstantValue { constant_value_index: 5, .. }));
    assert!(matches!(field.attributes[0].kind(), AttributeKind::Unknown));
    assert_eq!(field.attributes[0].name_index(), 4);
    assert_eq!(field.attributes[0].length(), 5);
    assert!(matches!(field.attributes[1].kind(), AttributeKind::ConstantValue));
    match &field.attributes[2] {
        Attribute::Unknown { attribute_length, info, .. } => {
            assert_eq!(*attribute_length, 0);
            assert!(info.is_empty());
        }
        other => panic!("not kept as unknown: {:?}", other),
    }
    assert!(matches!(field.value, Some(FieldValue::Integer(9))));
}

#[test]
fn attribute_names_are_compared_exactly() {
    let pool = Bytes(Vec::new()).utf8("X").utf8("I").utf8("constantvalue").utf8("Code ");
    let attrs = Bytes(Vec::new()).u16(3).u32(1).u8(7).u16(4).u32(0).0;
    let bytes = class_with_field(5, pool, 2, &attrs);
    let class = decode_class(&bytes).unwrap();
    assert!(matches!(class.fields[0].attributes[0], Attribute::Unknown { .. }));
    assert!(matches!(class.fields[0].attributes[1], Attribute::Unknown { .. }));
    assert!(class.fields[0].value.is_none());
}

#[test]
fn attribute_longer_than_the_file() {
    let pool = field_pool().utf8("Vendor");
    let attr = Bytes(Vec::new()).u16(4).u32(10).raw(&[1, 2, 3]).0;
    let at = pool_after_header(5, field_pool().utf8("Vendor")).len() + 10 + 8 + 6;
    let mut bytes = pool_after_header(5, pool).class_numbers().u16(1).u16(0).u16(1).u16(2).u16(1).0;
    bytes.extend_from_slice(&attr);
    match expect_err(&bytes) {
        DecompileError::UnexpectedEof(offset) => assert_eq!(offset, at),
        other => panic!("unexpected: {:?}", other),
    }
}

#[test]
fn attribute_header_cut_short() {
    let pool = field_pool();
    let mut bytes = pool_after_header(4, pool).class_numbers().u16(1).u16(0).u16(1).u16(2).u16(1).0;
    let at = bytes.len() as u64;
    bytes.extend_from_slice(&[0, 3, 0, 0]);
    match expect_err(&bytes) {
        DecompileError::UnexpectedEof(offset) => assert_eq!(offset, at),
        other => panic!("unexpected: {:?}", other),
    }
}
