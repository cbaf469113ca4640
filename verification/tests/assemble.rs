use jswt::ast::declaration::{Ast, Program, SourceElements};
use jswt::codegen::generator::CodeGenerator;
use jswt::wasm::assemble::{assemble, check, describe, locals_of, section_names, section_order};
use jswt::wasm::encode::{find_depth, find_name, write_instruction, write_instructions, EncodeError};
use jswt::wasm::leb128::write_sleb128;
use jswt::wasm::module::Module as BinaryModule;
use jswt::wasm::section::{FunctionType as Entry, Section};
use jswt::wasm::valtype::ValType;
use jswt::wast::{
    Export, Function, FunctionExport, FunctionImport, FunctionType, GlobalType, Import,
    Instruction, Module, ValueType,
};

fn sleb(value: i32) -> Vec<u8> {
    let mut buf = vec![];
    write_sleb128(&mut buf, value);
    buf
}

#[test]
fn test_signed_leb128() {
    assert_eq!(sleb(0), [0x00]);
    assert_eq!(sleb(1), [0x01]);
    assert_eq!(sleb(-1), [0x7f]);
    assert_eq!(sleb(63), [0x3f]);
    assert_eq!(sleb(64), [0xc0, 0x00]);
    assert_eq!(sleb(-64), [0x40]);
    assert_eq!(sleb(-65), [0xbf, 0x7f]);
    assert_eq!(sleb(99), [0xe3, 0x00]);
    assert_eq!(sleb(127), [0xff, 0x00]);
    assert_eq!(sleb(128), [0x80, 0x01]);
    assert_eq!(sleb(-128), [0x80, 0x7f]);
    assert_eq!(sleb(-123456), [0xc0, 0xbb, 0x78]);
    assert_eq!(sleb(i32::MAX), [0xff, 0xff, 0xff, 0xff, 0x07]);
    assert_eq!(sleb(i32::MIN), [0x80, 0x80, 0x80, 0x80, 0x78]);
}

fn names(values: &[&str]) -> Vec<String> {
    values.iter().map(|value| value.to_string()).collect()
}

/// The encoding of an instruction in a function with the locals `a`, `b`
/// and `return`, in a module with the functions `f` and `g`.
fn encoded(instruction: Instruction) -> Result<Vec<u8>, EncodeError> {
    let mut buf = vec![0xee];
    let mut frames = vec![];
    write_instruction(
        &mut buf,
        &names(&["a", "b", "return"]),
        &names(&["f", "g"]),
        &mut frames,
        &instruction,
    )?;
    assert!(frames.is_empty());
    assert_eq!(buf[0], 0xee);
    Ok(buf[1..].to_vec())
}

fn constant(value: i32) -> Box<Instruction> {
    Box::new(Instruction::I32Const(value))
}

fn get(value: &str) -> Instruction {
    Instruction::LocalGet(value.to_string())
}

#[test]
fn test_constants() {
    assert_eq!(encoded(Instruction::I32Const(42)), Ok(vec![0x41, 0x2a]));
    assert_eq!(encoded(Instruction::I32Const(-1)), Ok(vec![0x41, 0x7f]));
    assert_eq!(encoded(Instruction::I32Const(1000)), Ok(vec![0x41, 0xe8, 0x07]));
    assert_eq!(
        encoded(Instruction::F32Const(1.0f32.to_bits())),
        Ok(vec![0x43, 0x00, 0x00, 0x80, 0x3f])
    );
    assert_eq!(
        encoded(Instruction::F32Const(0x0102_0304)),
        Ok(vec![0x43, 0x04, 0x03, 0x02, 0x01])
    );
}

#[test]
fn test_operators() {
    let cases: Vec<(fn(Box<Instruction>, Box<Instruction>) -> Instruction, u8)> = vec![
        (Instruction::I32Add, 0x6a),
        (Instruction::I32Sub, 0x6b),
        (Instruction::I32Mul, 0x6c),
        (Instruction::I32Div, 0x6d),
        (Instruction::I32Eq, 0x46),
        (Instruction::I32Neq, 0x47),
        (Instruction::I32Lt, 0x48),
        (Instruction::I32Gt, 0x4a),
        (Instruction::I32Le, 0x4c),
        (Instruction::I32Ge, 0x4e),
        (Instruction::I32And, 0x71),
        (Instruction::I32Or, 0x72),
        (Instruction::I32Xor, 0x73),
        (Instruction::F32Add, 0x92),
    ];
    for (operator, opcode) in cases {
        // The operands come first, the left one before the right one
        assert_eq!(
            encoded(operator(constant(1), constant(2))),
            Ok(vec![0x41, 0x01, 0x41, 0x02, opcode])
        );
    }
}

#[test]
fn test_memory_and_variables() {
    assert_eq!(
        encoded(Instruction::I32Store(constant(8), constant(5))),
        Ok(vec![0x41, 0x08, 0x41, 0x05, 0x36, 0x02, 0x00])
    );
    assert_eq!(
        encoded(Instruction::I32Load(constant(8))),
        Ok(vec![0x41, 0x08, 0x28, 0x02, 0x00])
    );
    assert_eq!(encoded(get("a")), Ok(vec![0x20, 0x00]));
    assert_eq!(encoded(get("return")), Ok(vec![0x20, 0x02]));
    assert_eq!(
        encoded(Instruction::LocalSet("b".to_string(), constant(7))),
        Ok(vec![0x41, 0x07, 0x21, 0x01])
    );
    assert_eq!(encoded(Instruction::Noop), Ok(vec![0x01]));
    assert_eq!(encoded(Instruction::Local("c".to_string(), ValueType::I32)), Ok(vec![]));
}

#[test]
fn test_calls_and_returns() {
    assert_eq!(
        encoded(Instruction::Call("g".to_string(), vec![get("a"), Instruction::I32Const(3)])),
        Ok(vec![0x20, 0x00, 0x41, 0x03, 0x10, 0x01])
    );
    assert_eq!(encoded(Instruction::Call("f".to_string(), vec![])), Ok(vec![0x10, 0x00]));
    assert_eq!(encoded(Instruction::Return(constant(1))), Ok(vec![0x41, 0x01, 0x0f]));
    assert_eq!(encoded(Instruction::SynthReturn), Ok(vec![0x20, 0x02, 0x0f]));
    assert_eq!(
        encoded(Instruction::Complex(vec![Instruction::Noop, get("b")])),
        Ok(vec![0x01, 0x20, 0x01])
    );
}

#[test]
fn test_structures() {
    assert_eq!(
        encoded(Instruction::Block(0, vec![Instruction::Noop])),
        Ok(vec![0x02, 0x40, 0x01, 0x0b])
    );
    assert_eq!(encoded(Instruction::Loop(5, vec![])), Ok(vec![0x03, 0x40, 0x0b]));
    assert_eq!(
        encoded(Instruction::If(constant(1), vec![Instruction::Noop], vec![])),
        Ok(vec![0x41, 0x01, 0x04, 0x40, 0x01, 0x0b])
    );
    assert_eq!(
        encoded(Instruction::If(constant(1), vec![], vec![Instruction::Noop, Instruction::Noop])),
        Ok(vec![0x41, 0x01, 0x04, 0x40, 0x05, 0x01, 0x01, 0x0b])
    );
}

#[test]
fn test_branch_counts_the_structures_between() {
    // while: block { loop 7 { if (..) { loop 8 { br 8; br 7 } br 7 } } }
    let inner = Instruction::Loop(8, vec![Instruction::BrLoop(8), Instruction::BrLoop(7)]);
    let guarded = Instruction::If(constant(1), vec![inner, Instruction::BrLoop(7)], vec![]);
    let outer = Instruction::Block(0, vec![Instruction::Loop(7, vec![guarded])]);
    assert_eq!(
        encoded(outer),
        Ok(vec![
            0x02, 0x40, // block
            0x03, 0x40, // loop 7
            0x41, 0x01, 0x04, 0x40, // if
            0x03, 0x40, // loop 8
            0x0c, 0x00, // br 8
            0x0c, 0x02, // br 7
            0x0b, // end of loop 8
            0x0c, 0x01, // br 7
            0x0b, 0x0b, 0x0b,
        ])
    );
    assert_eq!(find_depth(&vec![Some(1), None, Some(2), Some(1), None], 1), Some(1));
    assert_eq!(find_depth(&vec![Some(1), None, Some(2), None], 1), Some(3));
    assert_eq!(find_depth(&vec![Some(1), None], 2), None);
    assert_eq!(find_name(&names(&["x", "y", "x"]), &"x".to_string()), Some(0));
    assert_eq!(find_name(&names(&["x", "y", "x"]), &"z".to_string()), None);
}

#[test]
fn test_what_has_no_encoding() {
    assert_eq!(
        encoded(Instruction::RawWast("(nop)".to_string())),
        Err(EncodeError::Unsupported)
    );
    assert_eq!(encoded(Instruction::GlobalGet("a".to_string())), Err(EncodeError::Unsupported));
    assert_eq!(
        encoded(Instruction::GlobalSet("a".to_string(), constant(1))),
        Err(EncodeError::Unsupported)
    );
    assert_eq!(encoded(get("c")), Err(EncodeError::UnknownLocal));
    assert_eq!(
        encoded(Instruction::LocalSet("c".to_string(), constant(1))),
        Err(EncodeError::UnknownLocal)
    );
    assert_eq!(
        encoded(Instruction::Call("println".to_string(), vec![])),
        Err(EncodeError::UnknownFunction)
    );
    assert_eq!(encoded(Instruction::BrLoop(0)), Err(EncodeError::UnknownLabel));
    assert_eq!(
        encoded(Instruction::Loop(1, vec![Instruction::BrLoop(0)])),
        Err(EncodeError::UnknownLabel)
    );
    // The first error in the order of the instructions is reported
    assert_eq!(
        encoded(Instruction::I32Add(Box::new(get("c")), Box::new(Instruction::BrLoop(0)))),
        Err(EncodeError::UnknownLocal)
    );
    let mut buf = vec![];
    let mut frames = vec![];
    let without_return = write_instructions(
        &mut buf,
        &names(&["a"]),
        &names(&[]),
        &mut frames,
        &vec![Instruction::Noop, Instruction::SynthReturn],
    );
    assert_eq!(without_return, Err(EncodeError::UnknownLocal));
}

fn module(types: Vec<FunctionType>, functions: Vec<Function>, exports: Vec<(usize, &str)>) -> Module {
    Module {
        imports: vec![],
        types,
        functions,
        globals: vec![],
        exports: exports
            .into_iter()
            .map(|(function_idx, name)| {
                Export::Function(FunctionExport { function_idx, name: name.to_string() })
            })
            .collect(),
    }
}

fn function(name: &str, type_idx: usize, instructions: Vec<Instruction>) -> Function {
    Function { name: name.to_string(), type_idx, instructions }
}

fn unit() -> FunctionType {
    FunctionType { params: vec![], ret: None }
}

const PREAMBLE: [u8; 8] = [0x00, 0x61, 0x73, 0x6d, 0x01, 0x00, 0x00, 0x00];

#[test]
fn test_empty_module_has_four_empty_sections() {
    let empty = module(vec![], vec![], vec![]);
    let binary = assemble(&empty).unwrap();
    assert_eq!(binary.serialize(), BinaryModule::new().serialize());
    assert_eq!(
        binary.serialize().unwrap()[8..],
        [0x01, 0x01, 0x00, 0x03, 0x01, 0x00, 0x07, 0x01, 0x00, 0x0a, 0x01, 0x00]
    );
}

/// function test(a: i32): i32 { return 1 + 2; }
fn returning_function() -> Module {
    module(
        vec![FunctionType {
            params: vec![("a".to_string(), ValueType::I32)],
            ret: Some(ValueType::I32),
        }],
        vec![function(
            "test",
            0,
            vec![
                Instruction::Local("return".to_string(), ValueType::I32),
                Instruction::Block(
                    0,
                    vec![Instruction::Return(Box::new(Instruction::I32Add(constant(1), constant(2))))],
                ),
                Instruction::SynthReturn,
            ],
        )],
        vec![],
    )
}

#[test]
fn test_function_with_result() {
    let ir = returning_function();
    let bytes = assemble(&ir).unwrap().serialize().unwrap();
    assert_eq!(bytes[..8], PREAMBLE);
    assert_eq!(
        bytes[8..],
        [
            0x01, 0x06, 0x01, 0x60, 0x01, 0x7f, 0x01, 0x7f, // one type: (i32) -> i32
            0x03, 0x02, 0x01, 0x00, // one function, of type 0
            0x07, 0x01, 0x00, // no exports
            0x0a, 0x12, 0x01, // one body
            0x10, // of 16 bytes
            0x01, 0x01, 0x7f, // one local of type i32
            0x02, 0x40, 0x41, 0x01, 0x41, 0x02, 0x6a, 0x0f, 0x0b, // block
            0x20, 0x01, 0x0f, // return the local `return`
            0x0b,
        ]
    );
    assert_eq!(
        locals_of(&ir, 0),
        (names(&["a", "return"]), vec![ValType::I32])
    );
}

/// Two helpers around the exported `main`, which calls both.
fn with_exports() -> Module {
    let f32_unit = FunctionType { params: vec![("x".to_string(), ValueType::F32)], ret: None };
    module(
        vec![unit(), f32_unit],
        vec![
            function("first", 0, vec![Instruction::Block(0, vec![])]),
            function(
                "main",
                0,
                vec![Instruction::Block(
                    0,
                    vec![
                        Instruction::Call("first".to_string(), vec![]),
                        Instruction::Call(
                            "last".to_string(),
                            vec![Instruction::F32Const(0)],
                        ),
                        Instruction::Call("main".to_string(), vec![]),
                    ],
                )],
            ),
            function("last", 1, vec![Instruction::Block(0, vec![])]),
        ],
        vec![(1, "start")],
    )
}

#[test]
fn test_exported_functions_come_first() {
    let ir = with_exports();
    assert_eq!(check(&ir), None);
    let (order, exported) = section_order(&ir);
    assert_eq!((order.clone(), exported), (vec![1, 0, 2], 1));
    assert_eq!(section_names(&ir, &order), names(&["main", "first", "last"]));
    assert_eq!(
        describe(&ir, 1),
        Entry { name: "start", export: true, params: vec![], ret: ValType::Void }
    );
    assert_eq!(
        describe(&ir, 2),
        Entry { name: "last", export: false, params: vec![ValType::F32], ret: ValType::Void }
    );

    let binary = assemble(&ir).unwrap();
    assert!(binary.is_ordered());
    match &binary.segments[2] {
        Section::Export(exports) => assert_eq!(
            exports.functions,
            vec![Entry { name: "start", export: true, params: vec![], ret: ValType::Void }]
        ),
        _ => panic!("the third section is the export section"),
    }
    assert_eq!(
        binary.serialize().unwrap()[8..],
        [
            0x01, 0x0b, 0x03, // three types, one for each function
            0x60, 0x00, 0x00, // main
            0x60, 0x00, 0x00, // first
            0x60, 0x01, 0x7d, 0x00, // last
            0x03, 0x04, 0x03, 0x00, 0x01, 0x02, // three functions
            0x07, 0x09, 0x01, 0x05, 0x73, 0x74, 0x61, 0x72, 0x74, 0x00, 0x00, // start is function 0
            0x0a, 0x1e, 0x03, // three bodies
            0x10, 0x00, 0x02, 0x40, // main
            0x10, 0x01, // call first
            0x43, 0x00, 0x00, 0x00, 0x00, 0x10, 0x02, // call last
            0x10, 0x00, // call main
            0x0b, 0x0b, //
            0x05, 0x00, 0x02, 0x40, 0x0b, 0x0b, // first
            0x05, 0x00, 0x02, 0x40, 0x0b, 0x0b, // last
        ]
    );
}

#[test]
fn test_what_cannot_be_assembled() {
    let mut imported = with_exports();
    imported.imports.push(Import::Function(FunctionImport {
        name: "println".to_string(),
        type_idx: 0,
        module: "env".to_string(),
    }));
    assert_eq!(check(&imported), Some(EncodeError::Unsupported));
    assert_eq!(assemble(&imported).err(), Some(EncodeError::Unsupported));

    let mut global = with_exports();
    global.globals.push(GlobalType {
        name: "g".to_string(),
        ty: ValueType::I32,
        mutable: true,
        initializer: Instruction::I32Const(0),
    });
    assert_eq!(assemble(&global).err(), Some(EncodeError::Unsupported));

    let missing = module(vec![unit()], vec![function("f", 0, vec![])], vec![(1, "f")]);
    assert_eq!(assemble(&missing).err(), Some(EncodeError::InvalidIndex));

    let twice = module(vec![unit()], vec![function("f", 0, vec![])], vec![(0, "f"), (0, "g")]);
    assert_eq!(assemble(&twice).err(), Some(EncodeError::Unsupported));
    // An index that names nothing is reported before an export that comes twice
    let both = module(vec![unit()], vec![function("f", 0, vec![])], vec![(0, "f"), (0, "g"), (3, "h")]);
    assert_eq!(assemble(&both).err(), Some(EncodeError::InvalidIndex));

    let untyped = module(vec![unit()], vec![function("f", 1, vec![])], vec![]);
    assert_eq!(assemble(&untyped).err(), Some(EncodeError::InvalidIndex));

    let raw = module(
        vec![unit()],
        vec![
            function("f", 0, vec![Instruction::Call("println".to_string(), vec![])]),
            function("g", 0, vec![Instruction::RawWast(String::new())]),
        ],
        vec![(1, "g")],
    );
    // The exported function comes first, and so does its error
    assert_eq!(assemble(&raw).err(), Some(EncodeError::Unsupported));
    let unknown = module(
        vec![unit()],
        vec![function("f", 0, vec![Instruction::Call("println".to_string(), vec![])])],
        vec![],
    );
    assert_eq!(assemble(&unknown).err(), Some(EncodeError::UnknownFunction));
}

#[test]
fn test_empty_source_gives_the_empty_binary_module() {
    let ast = Ast::new(Program { source_elements: SourceElements { source_elements: vec![] } });
    let mut generator = CodeGenerator::default();
    let ir = generator.generate_module(&ast).unwrap();
    assert_eq!(ir, &module(vec![], vec![], vec![]));
    assert_eq!(
        assemble(ir).unwrap().serialize().unwrap(),
        [
            0x00, 0x61, 0x73, 0x6d, 0x01, 0x00, 0x00, 0x00, // magic and version
            0x01, 0x01, 0x00, 0x03, 0x01, 0x00, 0x07, 0x01, 0x00, 0x0a, 0x01, 0x00,
        ]
    );
}
