use jswt::wasm::section::{ExportSection, FunctionSection, FunctionType, TypeSection};
use jswt::wasm::valtype::ValType;

#[test]
fn test_serialize_type_section() {
    let section = TypeSection::new(vec![FunctionType {
        name: "",
        export: false,
        params: vec![ValType::I32, ValType::I32],
        ret: ValType::I32,
    }]);

    let actual = section.serialize().unwrap();
    assert_eq!(
        actual,
        [0x01, 0x07, 0x01, 0x60, 0x02, 0x7F, 0x7F, 0x01, 0x7F]
    );
}

#[test]
fn test_serialize_type_section_with_2_functions() {
    let section = TypeSection::new(vec![
        FunctionType {
            name: "",
            export: false,
            params: vec![ValType::I32, ValType::I32],
            ret: ValType::I32,
        },
        FunctionType {
            name: "",
            export: false,
            params: vec![],
            ret: ValType::Void,
        },
    ]);

    let actual = section.serialize().unwrap();
    assert_eq!(
        actual,
        [0x01, 0x0a, 0x02, 0x60, 0x02, 0x7F, 0x7F, 0x01, 0x7F, 0x60, 0x00, 0x00]
    );
}

#[test]
fn test_serialize_function_type_with_2_i32_params() {
    let function = FunctionType {
        name: "",
        export: false,
        params: vec![ValType::I32, ValType::I32],
        ret: ValType::I32,
    };
    let actual = function.serialize().unwrap();
    assert_eq!(actual, [0x60, 0x02, 0x7f, 0x7f, 0x01, 0x7f]);
}

#[test]
fn test_serialize_void_function_type_with_2_i32_params() {
    let function = FunctionType {
        name: "",
        export: false,
        params: vec![ValType::I32, ValType::I32],
        ret: ValType::Void,
    };
    let actual = function.serialize().unwrap();
    assert_eq!(actual, [0x60, 0x02, 0x7f, 0x7f, 0x00]);
}

#[test]
fn test_serialize_void_function_type_with_0_params() {
    let function = FunctionType {
        name: "",
        export: false,
        params: vec![],
        ret: ValType::Void,
    };
    let actual = function.serialize().unwrap();
    assert_eq!(actual, [0x60, 0x00, 0x00]);
}

#[test]
fn test_serialize_function_section_with_no_functions() {
    let function = FunctionSection::new(vec![]);
    let actual = function.serialize().unwrap();
    assert_eq!(actual, [0x03, 0x01, 0x00]);
}

#[test]
fn test_serialize_function_section_with_1_void_function() {
    let function = FunctionSection::new(vec![FunctionType {
        name: "",
        export: false,
        params: vec![],
        ret: ValType::Void,
    }]);
    let actual = function.serialize().unwrap();
    assert_eq!(actual, [0x03, 0x02, 0x01, 0x00]);
}

#[test]
fn test_serialize_function_section_with_2_functions() {
    let function = FunctionSection::new(vec![
        FunctionType {
            name: "",
            export: false,
            params: vec![ValType::I32, ValType::I32],
            ret: ValType::I32,
        },
        FunctionType {
            name: "",
            export: false,
            params: vec![],
            ret: ValType::Void,
        },
    ]);
    let actual = function.serialize().unwrap();
    assert_eq!(actual, [0x03, 0x03, 0x2, 0x00, 0x01]);
}

#[test]
fn test_serialize_export_section_with_1_function() {
    let export = ExportSection::new(vec![FunctionType {
        name: "main",
        export: true,
        params: vec![ValType::I32, ValType::I32],
        ret: ValType::I32,
    }]);
    let actual = export.serialize().unwrap();
    assert_eq!(
        actual,
        [0x07, 0x08, 0x01, 0x04, 0x6d, 0x61, 0x69, 0x6e, 0x00, 0x00]
    );
}

#[test]
fn test_serialize_export_section_with_2_functions() {
    let export = ExportSection::new(vec![
        FunctionType {
            name: "main",
            export: true,
            params: vec![ValType::I32, ValType::I32],
            ret: ValType::I32,
        },
        FunctionType {
            name: "test",
            export: true,
            params: vec![ValType::I32, ValType::I32],
            ret: ValType::I32,
        },
    ]);
    let actual = export.serialize().unwrap();
    assert_eq!(
        actual,
        [
            0x07, 0x0F, 0x02, // Section meta
            0x04, 0x6d, 0x61, 0x69, 0x6e, 0x00, 0x00, // First function
            0x04, 0x74, 0x65, 0x73, 0x74, 0x00, 0x01 // Second function
        ]
    );
}
