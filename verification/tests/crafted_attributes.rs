use class_decoder::annotation::{ElementValue, TargetInfo};
use class_decoder::attribute::Attribute;
use class_decoder::class::ClassFile;
use class_decoder::decompile::decode_class;
use class_decoder::error::DecompileError;
use class_decoder::frames::{StackMapFrame, VerificationTypeInfo};

fn be16(v: u16) -> [u8; 2] {
    v.to_be_bytes()
}

/// A class whose pool holds the given texts from index 1 on, with no
/// fields or methods and the given class-level attributes. Returns the
/// bytes and the offset at which the attributes begin.
fn class_with(names: &[&str], attributes_count: u16, attributes: &[u8]) -> (Vec<u8>, u64) {
    let mut b: Vec<u8> = vec![0xCA, 0xFE, 0xBA, 0xBE, 0, 0, 0, 61];
    b.extend_from_slice(&be16(names.len() as u16 + 1));
    for name in names {
        b.push(1);
        b.extend_from_slice(&be16(name.len() as u16));
        b.extend_from_slice(name.as_bytes());
    }
    b.extend_from_slice(&[0, 0x21, 0, 0, 0, 0, 0, 0, 0, 0, 0, 0]);
    b.extend_from_slice(&be16(attributes_count));
    let at = b.len() as u64;
    b.extend_from_slice(attributes);
    (b, at)
}

/// One attribute: the name index, the length of `body`, and `body`.
fn attribute(name_index: u16, body: &[u8]) -> Vec<u8> {
    attribute_declaring(name_index, body.len() as u32, body)
}

/// One attribute that declares `length` whatever `body` holds.
fn attribute_declaring(name_index: u16, length: u32, body: &[u8]) -> Vec<u8> {
    let mut a = Vec::new();
    a.extend_from_slice(&be16(name_index));
    a.extend_from_slice(&length.to_be_bytes());
    a.extend_from_slice(body);
    a
}

fn decode_one(name: &str, body: &[u8]) -> Result<ClassFile, DecompileError> {
    let (bytes, _) = class_with(&[name], 1, &attribute(1, body));
    decode_class(&bytes)
}

fn only(class: &ClassFile) -> &Attribute {
    assert_eq!(class.attributes.len(), 1);
    &class.attributes[0]
}

/// The offset of the body of the first class-level attribute of
/// `class_with(&[name], ..)`.
fn body_at(name: &str) -> u64 {
    class_with(&[name], 0, &[]).1 + 6
}

#[test]
fn source_debug_extension_keeps_its_bytes() {
    let class = decode_one("SourceDebugExtension", &[0x53, 0x4D, 0x41, 0x50, 0x0A, 0x00, 0xFF]).unwrap();
    match only(&class) {
        Attribute::SourceDebugExtension { attribute_name_index, attribute_length, debug_extension } => {
            assert_eq!(*attribute_name_index, 1);
            assert_eq!(*attribute_length, 7);
            assert_eq!(debug_extension, &vec![0x53, 0x4D, 0x41, 0x50, 0x0A, 0x00, 0xFF]);
        }
        other => panic!("unexpected: {:?}", other),
    }
    let class = decode_one("SourceDebugExtension", &[]).unwrap();
    assert!(matches!(only(&class), Attribute::SourceDebugExtension { attribute_length: 0, .. }));
}

#[test]
fn module_packages_and_main_class() {
    let class = decode_one("ModulePackages", &[0, 2, 0, 5, 0, 6]).unwrap();
    match only(&class) {
        Attribute::ModulePackages { package_count, package_index, attribute_length, .. } => {
            assert_eq!(*attribute_length, 6);
            assert_eq!(*package_count, 2);
            assert_eq!(package_index, &vec![5, 6]);
        }
        other => panic!("unexpected: {:?}", other),
    }
    let class = decode_one("ModuleMainClass", &[1, 7]).unwrap();
    assert!(matches!(only(&class), Attribute::ModuleMainClass { main_class_index: 0x0107, .. }));
}

#[test]
fn synthetic_has_no_body() {
    let class = decode_one("Synthetic", &[]).unwrap();
    assert!(matches!(
        only(&class),
        Attribute::Synthetic { attribute_name_index: 1, attribute_length: 0 }
    ));
    match decode_one("Synthetic", &[0]) {
        Err(DecompileError::AttributeLengthMismatch(1, 1, at)) => assert_eq!(at, body_at("Synthetic")),
        other => panic!("unexpected: {:?}", other),
    }
    match decode_one("Deprecated", &[1, 2, 3]) {
        Err(DecompileError::AttributeLengthMismatch(1, 3, at)) => assert_eq!(at, body_at("Deprecated")),
        other => panic!("unexpected: {:?}", other),
    }
}

#[test]
fn body_shorter_than_its_kind_needs() {
    match decode_one("SourceFile", &[0]) {
        Err(DecompileError::AttributeLengthMismatch(1, 1, at)) => assert_eq!(at, body_at("SourceFile")),
        other => panic!("unexpected: {:?}", other),
    }
    match decode_one("EnclosingMethod", &[0, 1, 0]) {
        Err(DecompileError::AttributeLengthMismatch(1, 3, at)) => assert_eq!(at, body_at("EnclosingMethod")),
        other => panic!("unexpected: {:?}", other),
    }
    match decode_one("LineNumberTable", &[0, 2, 0, 0, 0, 1, 0, 5]) {
        Err(DecompileError::AttributeLengthMismatch(1, 8, at)) => {
            assert_eq!(at, body_at("LineNumberTable") + 6)
        }
        other => panic!("unexpected: {:?}", other),
    }
}

#[test]
fn body_longer_than_its_kind_reads() {
    match decode_one("SourceFile", &[0, 1, 9]) {
        Err(DecompileError::AttributeLengthMismatch(1, 3, at)) => assert_eq!(at, body_at("SourceFile") + 2),
        other => panic!("unexpected: {:?}", other),
    }
    match decode_one("NestMembers", &[0, 1, 0, 4, 0, 5]) {
        Err(DecompileError::AttributeLengthMismatch(1, 6, at)) => assert_eq!(at, body_at("NestMembers") + 4),
        other => panic!("unexpected: {:?}", other),
    }
}

#[test]
fn declared_length_past_the_end_of_the_file() {
    let (bytes, at) = class_with(&["SourceFile"], 1, &attribute_declaring(1, 3, &[0, 1]));
    match decode_class(&bytes) {
        Err(DecompileError::UnexpectedEof(offset)) => assert_eq!(offset, at + 6),
        other => panic!("unexpected: {:?}", other),
    }
    let (bytes, at) = class_with(&["Vendor"], 1, &attribute_declaring(1, u32::MAX, &[0, 1]));
    match decode_class(&bytes) {
        Err(DecompileError::UnexpectedEof(offset)) => assert_eq!(offset, at + 6),
        other => panic!("unexpected: {:?}", other),
    }
}

#[test]
fn stack_map_frames_of_every_shape() {
    let body = [
        0, 7, // seven frames
        0, // same
        64, 1, // same locals, one stack item: int
        247, 0, 9, 7, 0, 3, // extended one stack item: object #3
        248, 0, 4, // chop three
        251, 1, 0, // same, extended
        254, 0, 2, 2, 4, 8, 0, 20, // append three: float, long, uninitialized at 20
        255, 0, 5, 0, 2, 7, 0, 9, 0, 0, 3, 6, 5, 3, // full: two locals, three stack items
    ];
    let class = decode_one("StackMapTable", &body).unwrap();
    let entries = match only(&class) {
        Attribute::StackMapTable { number_of_entries, entries, attribute_length, .. } => {
            assert_eq!(*number_of_entries, 7);
            assert_eq!(*attribute_length as usize, body.len());
            entries
        }
        other => panic!("unexpected: {:?}", other),
    };
    assert!(matches!(entries[0], StackMapFrame::SameFrame { frame_type: 0 }));
    assert!(matches!(
        entries[1],
        StackMapFrame::SameLocals1StackItemFrame { frame_type: 64, stack: VerificationTypeInfo::Integer }
    ));
    assert!(matches!(
        entries[2],
        StackMapFrame::SameLocals1StackItemFrameExtended {
            offset_delta: 9,
            stack: VerificationTypeInfo::Object { cpool_index: 3 }
        }
    ));
    assert!(matches!(entries[3], StackMapFrame::ChopFrame { frame_type: 248, offset_delta: 4 }));
    assert!(matches!(entries[4], StackMapFrame::SameFrameExtended { offset_delta: 256 }));
    match &entries[5] {
        StackMapFrame::AppendFrame { frame_type: 254, offset_delta: 2, locals } => {
            assert_eq!(locals.len(), 3);
            assert!(matches!(locals[0], VerificationTypeInfo::Float));
            assert!(matches!(locals[1], VerificationTypeInfo::Long));
            assert!(matches!(locals[2], VerificationTypeInfo::Uninitialized { offset: 20 }));
        }
        other => panic!("unexpected: {:?}", other),
    }
    match &entries[6] {
        StackMapFrame::FullFrame { offset_delta, number_of_locals, locals, number_of_stack_items, stack } => {
            assert_eq!(*offset_delta, 5);
            assert_eq!(*number_of_locals, 2);
            assert!(matches!(locals[0], VerificationTypeInfo::Object { cpool_index: 9 }));
            assert!(matches!(locals[1], VerificationTypeInfo::Top));
            assert_eq!(*number_of_stack_items, 3);
            assert!(matches!(stack[0], VerificationTypeInfo::UninitializedThis));
            assert!(matches!(stack[1], VerificationTypeInfo::Null));
            assert!(matches!(stack[2], VerificationTypeInfo::Double));
        }
        other => panic!("unexpected: {:?}", other),
    }
}

#[test]
fn reserved_frame_types_are_rejected() {
    for frame_type in [128u8, 200, 246] {
        match decode_one("StackMapTable", &[0, 2, 5, frame_type, 0, 0]) {
            Err(DecompileError::InvalidAttributeTag(t, at)) => {
                assert_eq!(t, frame_type);
                assert_eq!(at, body_at("StackMapTable") + 3);
            }
            other => panic!("unexpected: {:?}", other),
        }
    }
}

#[test]
fn unknown_verification_type_is_rejected() {
    match decode_one("StackMapTable", &[0, 1, 64, 9]) {
        Err(DecompileError::InvalidAttributeTag(9, at)) => assert_eq!(at, body_at("StackMapTable") + 3),
        other => panic!("unexpected: {:?}", other),
    }
    match decode_one("StackMapTable", &[0, 1, 252, 0, 0, 255]) {
        Err(DecompileError::InvalidAttributeTag(255, at)) => assert_eq!(at, body_at("StackMapTable") + 5),
        other => panic!("unexpected: {:?}", other),
    }
}

#[test]
fn element_values_of_every_constant_tag() {
    for tag in "BCDFIJSZs".bytes() {
        let class = decode_one("AnnotationDefault", &[tag, 0, 7]).unwrap();
        match only(&class) {
            Attribute::AnnotationDefault {
                default_value: ElementValue::ConstValueIndex { tag: t, const_value_index: 7 },
                ..
            } => assert_eq!(*t, tag),
            other => panic!("unexpected: {:?}", other),
        }
    }
}

#[test]
fn unknown_element_value_tag_is_rejected() {
    for tag in [b'?', b'b', b'E', 0, 255] {
        match decode_one("AnnotationDefault", &[tag, 0, 7]) {
            Err(DecompileError::InvalidAttributeTag(t, at)) => {
                assert_eq!(t, tag);
                assert_eq!(at, body_at("AnnotationDefault"));
            }
            other => panic!("unexpected: {:?}", other),
        }
    }
    match decode_one("AnnotationDefault", &[b'[', 0, 2, b'I', 0, 1, b'x', 0, 2]) {
        Err(DecompileError::InvalidAttributeTag(b'x', at)) => assert_eq!(at, body_at("AnnotationDefault") + 6),
        other => panic!("unexpected: {:?}", other),
    }
}

#[test]
fn arrays_of_element_values_nest() {
    let depth = 200;
    let mut body = Vec::new();
    for _ in 0..depth {
        body.extend_from_slice(&[b'[', 0, 1]);
    }
    body.extend_from_slice(&[b'Z', 0, 4]);
    let class = decode_one("AnnotationDefault", &body).unwrap();
    let mut value = match only(&class) {
        Attribute::AnnotationDefault { default_value, .. } => default_value,
        other => panic!("unexpected: {:?}", other),
    };
    for _ in 0..depth {
        value = match value {
            ElementValue::ArrayValue { num_values: 1, values } => &values[0],
            other => panic!("unexpected: {:?}", other),
        };
    }
    assert!(matches!(value, ElementValue::ConstValueIndex { tag: b'Z', const_value_index: 4 }));
}

#[test]
fn empty_array_and_empty_annotation() {
    let class = decode_one("AnnotationDefault", &[b'[', 0, 0]).unwrap();
    match only(&class) {
        Attribute::AnnotationDefault { default_value: ElementValue::ArrayValue { num_values: 0, values }, .. } => {
            assert!(values.is_empty())
        }
        other => panic!("unexpected: {:?}", other),
    }
    let class = decode_one("AnnotationDefault", &[b'@', 0, 3, 0, 0]).unwrap();
    match only(&class) {
        Attribute::AnnotationDefault { default_value: ElementValue::AnnotationValue(a), .. } => {
            assert_eq!(a.type_index, 3);
            assert_eq!(a.num_element_value_pairs, 0);
            assert!(a.element_value_pairs.is_empty());
        }
        other => panic!("unexpected: {:?}", other),
    }
}

/// A type annotation: the target type, its target, an empty path, the
/// type index 0x0102 and no pairs.
fn type_annotation(target_type: u8, target: &[u8]) -> Vec<u8> {
    let mut a = vec![target_type];
    a.extend_from_slice(target);
    a.extend_from_slice(&[0, 1, 2, 0, 0]);
    a
}

#[test]
fn type_annotation_targets_of_every_shape() {
    let cases: Vec<(u8, Vec<u8>, &str)> = vec![
        (0x00, vec![3], "TypeParameter(3)"),
        (0x01, vec![4], "TypeParameter(4)"),
        (0x10, vec![0xFF, 0xFF], "SuperType(65535)"),
        (0x11, vec![1, 2], "TypeParameterBound { type_parameter_index: 1, bound_index: 2 }"),
        (0x12, vec![3, 4], "TypeParameterBound { type_parameter_index: 3, bound_index: 4 }"),
        (0x13, vec![], "Empty"),
        (0x14, vec![], "Empty"),
        (0x15, vec![], "Empty"),
        (0x16, vec![2], "FormalParameter(2)"),
        (0x17, vec![0, 1], "Throws(1)"),
        (
            0x40,
            vec![0, 2, 0, 1, 0, 2, 0, 3, 0, 4, 0, 5, 0, 6],
            "LocalVar { table_length: 2, table: [LocalVarTable { start_pc: 1, length: 2, index: 3 }, LocalVarTable { start_pc: 4, length: 5, index: 6 }] }",
        ),
        (0x41, vec![0, 0], "LocalVar { table_length: 0, table: [] }"),
        (0x42, vec![0, 9], "Catch(9)"),
        (0x43, vec![0, 10], "Offset(10)"),
        (0x44, vec![0, 11], "Offset(11)"),
        (0x45, vec![0, 12], "Offset(12)"),
        (0x46, vec![0, 13], "Offset(13)"),
        (0x47, vec![0, 14, 1], "TypeArgument { offset: 14, type_argument_index: 1 }"),
        (0x48, vec![0, 15, 2], "TypeArgument { offset: 15, type_argument_index: 2 }"),
        (0x49, vec![0, 16, 3], "TypeArgument { offset: 16, type_argument_index: 3 }"),
        (0x4A, vec![0, 17, 4], "TypeArgument { offset: 17, type_argument_index: 4 }"),
        (0x4B, vec![0, 18, 5], "TypeArgument { offset: 18, type_argument_index: 5 }"),
    ];
    let mut body = vec![0, cases.len() as u8];
    for (target_type, target, _) in &cases {
        body.extend_from_slice(&type_annotation(*target_type, target));
    }
    let class = decode_one("RuntimeInvisibleTypeAnnotations", &body).unwrap();
    match only(&class) {
        Attribute::RuntimeInvisibleTypeAnnotations { num_annotations, annotations, .. } => {
            assert_eq!(*num_annotations as usize, cases.len());
            for (a, (target_type, _, expected)) in annotations.iter().zip(cases.iter()) {
                assert_eq!(a.target_type, *target_type);
                assert_eq!(format!("{:?}", a.target_info), *expected);
                assert_eq!(a.target_path.path_length, 0);
                assert!(a.target_path.path.is_empty());
                assert_eq!(a.type_index, 0x0102);
                assert_eq!(a.num_element_value_pairs, 0);
            }
        }
        other => panic!("unexpected: {:?}", other),
    }
}

#[test]
fn type_annotation_with_a_path_and_pairs() {
    let body = [0, 1, 0x13, 2, 0, 0, 3, 1, 0, 9, 0, 1, 0, 5, b's', 0, 6];
    let class = decode_one("RuntimeVisibleTypeAnnotations", &body).unwrap();
    match only(&class) {
        Attribute::RuntimeVisibleTypeAnnotations { annotations, .. } => {
            let a = &annotations[0];
            assert!(matches!(a.target_info, TargetInfo::Empty));
            assert_eq!(a.target_path.path_length, 2);
            assert_eq!(a.target_path.path[0].type_path_kind, 0);
            assert_eq!(a.target_path.path[0].type_argument_index, 0);
            assert_eq!(a.target_path.path[1].type_path_kind, 3);
            assert_eq!(a.target_path.path[1].type_argument_index, 1);
            assert_eq!(a.type_index, 9);
            assert_eq!(a.num_element_value_pairs, 1);
            assert_eq!(a.element_value_pairs[0].element_name_index, 5);
            assert!(matches!(
                a.element_value_pairs[0].value,
                ElementValue::ConstValueIndex { tag: b's', const_value_index: 6 }
            ));
        }
        other => panic!("unexpected: {:?}", other),
    }
}

#[test]
fn unknown_target_type_is_rejected() {
    for target_type in [0x02u8, 0x18, 0x3F, 0x4C, 0x50, 0xFF] {
        let mut body = vec![0, 1];
        body.extend_from_slice(&type_annotation(target_type, &[0, 0]));
        match decode_one("RuntimeVisibleTypeAnnotations", &body) {
            Err(DecompileError::InvalidAttributeTag(t, at)) => {
                assert_eq!(t, target_type);
                assert_eq!(at, body_at("RuntimeVisibleTypeAnnotations") + 2);
            }
            other => panic!("unexpected: {:?}", other),
        }
    }
}

/// The body of a `Code` attribute with the given code and nested
/// attributes.
fn code_body(code: &[u8], handlers: &[[u16; 4]], nested_count: u16, nested: &[u8]) -> Vec<u8> {
    let mut b = vec![0, 2, 0, 3];
    b.extend_from_slice(&(code.len() as u32).to_be_bytes());
    b.extend_from_slice(code);
    b.extend_from_slice(&be16(handlers.len() as u16));
    for h in handlers {
        for v in h {
            b.extend_from_slice(&be16(*v));
        }
    }
    b.extend_from_slice(&be16(nested_count));
    b.extend_from_slice(nested);
    b
}

#[test]
fn code_with_handlers_and_nested_attributes() {
    let nested = [attribute(2, &[0, 1, 0, 0, 0, 7]), attribute(3, &[1, 2, 3])].concat();
    let body = code_body(&[0xB1], &[[0, 1, 1, 0], [2, 3, 4, 5]], 2, &nested);
    let (bytes, _) = class_with(&["Code", "LineNumberTable", "Custom"], 1, &attribute(1, &body));
    let class = decode_class(&bytes).unwrap();
    match only(&class) {
        Attribute::Code {
            max_stack,
            max_locals,
            code_length,
            code,
            exception_table_length,
            exception_table,
            attributes_count,
            attributes,
            attribute_length,
            ..
        } => {
            assert_eq!(*attribute_length as usize, body.len());
            assert_eq!((*max_stack, *max_locals, *code_length), (2, 3, 1));
            assert_eq!(code, &vec![0xB1]);
            assert_eq!(*exception_table_length, 2);
            assert_eq!(exception_table[0].catch_type, 0);
            assert_eq!(
                (
                    exception_table[1].start_pc,
                    exception_table[1].end_pc,
                    exception_table[1].handler_pc,
                    exception_table[1].catch_type
                ),
                (2, 3, 4, 5)
            );
            assert_eq!(*attributes_count, 2);
            assert!(matches!(attributes[0], Attribute::LineNumberTable { line_number_table_length: 1, .. }));
            match &attributes[1] {
                Attribute::Unknown { attribute_name_index: 3, attribute_length: 3, info } => {
                    assert_eq!(info, &vec![1, 2, 3])
                }
                other => panic!("unexpected: {:?}", other),
            }
        }
        other => panic!("unexpected: {:?}", other),
    }
}

#[test]
fn code_inside_code() {
    let inner = code_body(&[], &[], 0, &[]);
    let outer = code_body(&[0, 0], &[], 1, &attribute(1, &inner));
    let class = decode_one("Code", &outer).unwrap();
    match only(&class) {
        Attribute::Code { attributes, code_length: 2, .. } => match &attributes[0] {
            Attribute::Code { code_length: 0, attributes, code, .. } => {
                assert!(code.is_empty());
                assert!(attributes.is_empty());
            }
            other => panic!("unexpected: {:?}", other),
        },
        other => panic!("unexpected: {:?}", other),
    }
}

#[test]
fn nested_attribute_that_overruns_its_code() {
    let nested = attribute_declaring(2, 50, &[0, 0]);
    let body = code_body(&[0xB1], &[], 1, &nested);
    let (bytes, at) = class_with(&["Code", "Custom"], 1, &attribute(1, &body));
    match decode_class(&bytes) {
        Err(DecompileError::AttributeLengthMismatch(1, length, offset)) => {
            assert_eq!(length as usize, body.len());
            assert_eq!(offset, at + 6 + 8 + 1 + 2 + 2 + 6);
        }
        other => panic!("unexpected: {:?}", other),
    }
}

#[test]
fn nested_attribute_with_a_wrong_length_names_itself() {
    let nested = attribute(2, &[0, 0, 9]);
    let body = code_body(&[0xB1], &[], 1, &nested);
    let (bytes, at) = class_with(&["Code", "LineNumberTable"], 1, &attribute(1, &body));
    match decode_class(&bytes) {
        Err(DecompileError::AttributeLengthMismatch(2, 3, offset)) => {
            assert_eq!(offset, at + 6 + 8 + 1 + 2 + 2 + 6 + 2)
        }
        other => panic!("unexpected: {:?}", other),
    }
}

#[test]
fn code_that_declares_more_code_than_its_body_holds() {
    let mut body = vec![0, 1, 0, 1];
    body.extend_from_slice(&100u32.to_be_bytes());
    body.extend_from_slice(&[0xB1, 0, 0, 0, 0]);
    match decode_one("Code", &body) {
        Err(DecompileError::AttributeLengthMismatch(1, 13, at)) => assert_eq!(at, body_at("Code") + 8),
        other => panic!("unexpected: {:?}", other),
    }
}

#[test]
fn code_with_bytes_left_over() {
    let mut body = code_body(&[0xB1], &[], 0, &[]);
    body.push(0);
    match decode_one("Code", &body) {
        Err(DecompileError::AttributeLengthMismatch(1, 14, at)) => assert_eq!(at, body_at("Code") + 13),
        other => panic!("unexpected: {:?}", other),
    }
}

#[test]
fn record_components_with_nested_attributes() {
    let mut body = vec![0, 2];
    body.extend_from_slice(&[0, 5, 0, 6, 0, 1]);
    body.extend_from_slice(&attribute(2, &[0, 9]));
    body.extend_from_slice(&[0, 7, 0, 8, 0, 0]);
    let (bytes, _) = class_with(&["Record", "Signature"], 1, &attribute(1, &body));
    let class = decode_class(&bytes).unwrap();
    match only(&class) {
        Attribute::Record { component_count: 2, components, .. } => {
            assert_eq!(components[0].name_index, 5);
            assert_eq!(components[0].descriptor_index, 6);
            assert_eq!(components[0].attributes_count, 1);
            assert!(matches!(components[0].attributes[0], Attribute::Signature { signature_index: 9, .. }));
            assert_eq!(components[1].name_index, 7);
            assert_eq!(components[1].descriptor_index, 8);
            assert!(components[1].attributes.is_empty());
        }
        other => panic!("unexpected: {:?}", other),
    }
}

#[test]
fn record_component_cut_short() {
    let (bytes, at) = class_with(&["Record"], 1, &attribute(1, &[0, 1, 0, 5, 0]));
    match decode_class(&bytes) {
        Err(DecompileError::AttributeLengthMismatch(1, 5, offset)) => assert_eq!(offset, at + 6 + 2),
        other => panic!("unexpected: {:?}", other),
    }
}

#[test]
fn several_class_attributes_in_a_row() {
    let attrs = [attribute(1, &[]), attribute(2, &[0xAB]), attribute(1, &[]), attribute(3, &[0, 4])].concat();
    let (bytes, _) = class_with(&["Deprecated", "Mystery", "SourceFile"], 4, &attrs);
    let class = decode_class(&bytes).unwrap();
    assert_eq!(class.attributes_count, 4);
    assert!(matches!(class.attributes[0], Attribute::Deprecated { .. }));
    match &class.attributes[1] {
        Attribute::Unknown { attribute_name_index: 2, attribute_length: 1, info } => assert_eq!(info, &vec![0xAB]),
        other => panic!("unexpected: {:?}", other),
    }
    assert!(matches!(class.attributes[2], Attribute::Deprecated { .. }));
    assert!(matches!(class.attributes[3], Attribute::SourceFile { sourcefile_index: 4, .. }));
}

#[test]
fn fewer_attributes_than_declared() {
    let (bytes, at) = class_with(&["Deprecated"], 2, &attribute(1, &[]));
    match decode_class(&bytes) {
        Err(DecompileError::UnexpectedEof(offset)) => assert_eq!(offset, at + 6),
        other => panic!("unexpected: {:?}", other),
    }
}
