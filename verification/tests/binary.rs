use jswt::wasm::leb128::{encode_leb128, write_leb128, write_len};
use jswt::wasm::module::{Module, MODULE_HEADER, MODULE_VERSION};
use jswt::wasm::section::{
    frame_section, CodeSection, ExportSection, FunctionCode, FunctionSection, FunctionType,
    Section, SerializeError, TypeSection,
};
use jswt::wasm::valtype::ValType;

#[test]
fn test_leb128() {
    assert_eq!(encode_leb128(0), [0x00]);
    assert_eq!(encode_leb128(1), [0x01]);
    assert_eq!(encode_leb128(127), [0x7f]);
    assert_eq!(encode_leb128(128), [0x80, 0x01]);
    assert_eq!(encode_leb128(300), [0xac, 0x02]);
    assert_eq!(encode_leb128(624485), [0xe5, 0x8e, 0x26]);
    assert_eq!(encode_leb128(u32::MAX), [0xff, 0xff, 0xff, 0xff, 0x0f]);

    let mut buf = vec![0xaa];
    write_leb128(&mut buf, 16384);
    assert_eq!(buf, [0xaa, 0x80, 0x80, 0x01]);
}

#[test]
fn test_lengths_above_32_bits_are_not_written() {
    let mut buf = vec![1, 2];
    assert!(write_len(&mut buf, 129));
    assert_eq!(buf, [1, 2, 0x81, 0x01]);
    assert!(write_len(&mut buf, u32::MAX as usize));
    if usize::BITS > 32 {
        let before = buf.clone();
        assert!(!write_len(&mut buf, u32::MAX as usize + 1));
        assert_eq!(buf, before);
    }
}

#[test]
fn test_value_type_bytes_in_both_directions() {
    let table = [(ValType::I32, 0x7fu8), (ValType::F32, 0x7d), (ValType::Void, 0x00)];
    for (ty, byte) in table {
        assert_eq!(u8::from(ty), byte);
        assert_eq!(u8::from(&ty), byte);
        assert_eq!(ty.byte(), byte);
        assert_eq!(ValType::from_byte(byte), Some(ty));
    }
    for byte in 0..=255u8 {
        match ValType::from_byte(byte) {
            Some(ty) => assert_eq!(u8::from(ty), byte),
            None => assert!(byte != 0x7f && byte != 0x7d && byte != 0x00),
        }
    }
    assert_eq!(ValType::from_byte(0x7e), None);
}

fn signature<'a>(name: &'a str, params: Vec<ValType>, ret: ValType) -> FunctionType<'a> {
    FunctionType { name, export: true, params, ret }
}

#[test]
fn test_empty_module() {
    let module = Module::new();
    assert_eq!(module.segments.len(), 4);
    assert_eq!(
        module.serialize().unwrap(),
        [
            0x00, 0x61, 0x73, 0x6d, 0x01, 0x00, 0x00, 0x00, // preamble
            0x01, 0x01, 0x00, // types
            0x03, 0x01, 0x00, // functions
            0x07, 0x01, 0x00, // exports
            0x0a, 0x01, 0x00, // code
        ]
    );
    assert_eq!(MODULE_HEADER, [0x00, 0x61, 0x73, 0x6d]);
    assert_eq!(MODULE_VERSION, [0x01, 0x00, 0x00, 0x00]);
}

#[test]
fn test_module_starts_with_the_preamble() {
    let header = [0x00u8, 0x61, 0x73, 0x6d, 0x01, 0x00, 0x00, 0x00];
    assert_eq!(Module { segments: vec![] }.serialize().unwrap(), header);
    let module = Module {
        segments: vec![
            Section::type_section(vec![signature("", vec![ValType::F32], ValType::I32)]),
            Section::export_section(vec![signature("f", vec![], ValType::Void)]),
        ],
    };
    let bytes = module.serialize().unwrap();
    assert_eq!(bytes[..8], header);
    assert_eq!(
        bytes[8..],
        [0x01, 0x06, 0x01, 0x60, 0x01, 0x7d, 0x01, 0x7f, 0x07, 0x05, 0x01, 0x01, 0x66, 0x00, 0x00]
    );
}

#[test]
fn test_sections_must_come_in_ascending_order() {
    let out_of_order = Module {
        segments: vec![Section::function_section(vec![]), Section::type_section(vec![])],
    };
    assert!(!out_of_order.is_ordered());
    assert_eq!(out_of_order.serialize(), Err(SerializeError::OutOfOrder));
    let twice = Module { segments: vec![Section::code_section(), Section::code_section()] };
    assert_eq!(twice.serialize(), Err(SerializeError::OutOfOrder));
    assert!(Module::new().is_ordered());
}

#[test]
fn test_section_ids() {
    assert_eq!(Section::type_section(vec![]).id(), 1);
    assert_eq!(Section::function_section(vec![]).id(), 3);
    assert_eq!(Section::export_section(vec![]).id(), 7);
    assert_eq!(Section::code_section().id(), 10);
    assert_eq!(Section::code_section().serialize().unwrap(), [0x0a, 0x01, 0x00]);
    assert_eq!(Section::type_section(vec![]).serialize().unwrap(), [0x01, 0x01, 0x00]);
}

#[test]
fn test_code_section_with_one_body() {
    // i32.const 42, return
    let body = FunctionCode { locals: vec![], code: vec![0x41, 0x2a, 0x0f] };
    assert_eq!(body.serialize().unwrap(), [0x05, 0x00, 0x41, 0x2a, 0x0f, 0x0b]);
    let section = CodeSection::with_bodies(vec![body]);
    assert_eq!(
        section.serialize().unwrap(),
        [0x0a, 0x07, 0x01, 0x05, 0x00, 0x41, 0x2a, 0x0f, 0x0b]
    );
    assert_eq!(CodeSection::new().serialize().unwrap(), [0x0a, 0x01, 0x00]);
}

#[test]
fn test_code_body_declares_its_locals() {
    let body = FunctionCode { locals: vec![ValType::I32, ValType::F32], code: vec![0x01] };
    assert_eq!(
        body.serialize().unwrap(),
        [0x07, 0x02, 0x01, 0x7f, 0x01, 0x7d, 0x01, 0x0b]
    );
}

#[test]
fn test_sizes_above_127_take_more_than_one_byte() {
    let wide = signature("", vec![ValType::I32; 200], ValType::F32);
    let bytes = wide.serialize().unwrap();
    assert_eq!(bytes.len(), 1 + 2 + 200 + 2);
    assert_eq!(bytes[..3], [0x60, 0xc8, 0x01]);
    assert_eq!(bytes[203..], [0x01, 0x7d]);

    let section = TypeSection::new(vec![wide]).serialize().unwrap();
    // The payload holds the count and the 205 bytes of the type
    assert_eq!(section[..4], [0x01, 0xce, 0x01, 0x01]);
    assert_eq!(section.len(), 3 + 206);

    let many: Vec<FunctionType> = (0..130).map(|_| signature("", vec![], ValType::Void)).collect();
    let functions = FunctionSection::new(many).serialize().unwrap();
    // 128 indexes of one byte and 2 of two, after a count of two bytes
    assert_eq!(functions[..4], [0x03, 0x86, 0x01, 0x82]);
    assert_eq!(functions[functions.len() - 4..], [0x80, 0x01, 0x81, 0x01]);
}

#[test]
fn test_export_description() {
    let main = signature("main", vec![], ValType::Void);
    assert_eq!(
        ExportSection::export_description((3, &main)).unwrap(),
        [0x04, 0x6d, 0x61, 0x69, 0x6e, 0x00, 0x03]
    );
    // The length of a name counts its bytes
    let name = signature("né", vec![], ValType::Void);
    assert_eq!(
        ExportSection::export_description((200, &name)).unwrap(),
        [0x03, 0x6e, 0xc3, 0xa9, 0x00, 0xc8, 0x01]
    );
    if usize::BITS > 32 {
        assert_eq!(
            ExportSection::export_description((1 << 32, &main)),
            Err(SerializeError::TooLarge)
        );
    }
}

#[test]
fn test_counts_above_32_bits_have_no_encoding() {
    assert_eq!(frame_section(1, 2, vec![0xaa, 0xbb]).unwrap(), [0x01, 0x03, 0x02, 0xaa, 0xbb]);
    if usize::BITS > 32 {
        assert_eq!(frame_section(1, 1 << 32, vec![]), Err(SerializeError::TooLarge));
    }
}
