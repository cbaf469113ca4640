use jswt::ast::declaration::{
    Annotation, Ast, FormalParameterArg, FormalParameterList, FunctionBody,
    FunctionDeclarationElement, FunctionDecorators, PrimaryTypeAnnotation, Primitive, Program,
    SourceElement, SourceElements, TypeAnnotation,
};
use jswt::ast::expression::{
    ArgumentsExpression, ArgumentsList, ArrayLiteral, BinaryExpression, BinaryOperator,
    BooleanLiteral, FloatLiteral, IdentifierExpression, IntegerLiteral, Literal,
    MemberIndexExpression, SingleExpression, StringLiteral, UnaryExpression, UnaryOperator,
};
use jswt::ast::statement::{
    AssignableElement, BlockStatement, EmptyStatement, ExpressionStatement, IfStatement,
    IterationStatement, ReturnStatement, StatementElement, StatementList, VariableModifier,
    VariableStatement, WhileIterationElement,
};
use jswt::codegen::generator::CodeGenerator;
use jswt::ident::{Ident, Identifier};
use jswt::span::Span;
use jswt::symbols::semantic::SemanticSymbolTable;
use jswt::symbols::wast_table::WastSymbol;
use jswt::types::{PrimitiveType, Type};
use jswt::wast::{
    Export, Function, FunctionExport, FunctionImport, FunctionType, GlobalType, Import,
    Instruction, Module, ValueType,
};

fn at(start: usize, end: usize) -> Span {
    Span::new(1, start, end)
}

fn i32_type() -> Type {
    Type::Primitive(PrimitiveType::I32)
}

fn f32_type() -> Type {
    Type::Primitive(PrimitiveType::F32)
}

fn integer(value: i32) -> SingleExpression {
    SingleExpression::Literal(Literal::Integer(IntegerLiteral { span: at(0, 0), value }))
}

fn name(value: &str, ty: Type) -> SingleExpression {
    SingleExpression::Identifier(IdentifierExpression {
        span: at(0, 0),
        ident: Identifier::from_string(value.to_string(), at(0, 0)),
        ty,
    })
}

fn binary(left: SingleExpression, op: BinaryOperator, right: SingleExpression) -> BinaryExpression {
    BinaryExpression {
        span: at(0, 0),
        left: Box::new(left),
        op,
        right: Box::new(right),
        ty: i32_type(),
    }
}

fn plus(left: SingleExpression, right: SingleExpression) -> SingleExpression {
    SingleExpression::Additive(binary(left, BinaryOperator::Plus(at(0, 0)), right))
}

fn less(left: SingleExpression, right: SingleExpression) -> SingleExpression {
    SingleExpression::Relational(binary(left, BinaryOperator::Less(at(0, 0)), right))
}

fn assign(left: SingleExpression, right: SingleExpression) -> SingleExpression {
    SingleExpression::Assignment(binary(left, BinaryOperator::Assign(at(0, 0)), right))
}

fn call(callee: &str, arguments: Vec<SingleExpression>) -> SingleExpression {
    SingleExpression::Arguments(ArgumentsExpression {
        span: at(0, 0),
        ident: Box::new(name(callee, Type::Unknown)),
        arguments: ArgumentsList { span: at(0, 0), arguments },
        ty: i32_type(),
    })
}

fn ret(expression: SingleExpression) -> StatementElement {
    StatementElement::Return(ReturnStatement { span: at(0, 0), expression })
}

fn expression(expression: SingleExpression) -> StatementElement {
    StatementElement::Expression(ExpressionStatement { span: at(0, 0), expression })
}

fn let_(target: &str, expression: SingleExpression) -> StatementElement {
    StatementElement::Variable(VariableStatement {
        span: at(0, 0),
        modifier: VariableModifier::Let(at(0, 0)),
        target: AssignableElement::Identifier(Ident::from_string(target.to_string(), at(0, 0))),
        expression,
    })
}

fn block(statements: Vec<StatementElement>) -> StatementElement {
    StatementElement::Block(BlockStatement { span: at(0, 0), statements: StatementList { statements } })
}

fn while_(condition: SingleExpression, body: StatementElement) -> StatementElement {
    StatementElement::Iteration(IterationStatement::While(WhileIterationElement {
        span: at(7, 8),
        expression: condition,
        statement: Box::new(body),
    }))
}

fn if_(
    condition: SingleExpression,
    consequence: StatementElement,
    alternative: Option<StatementElement>,
) -> StatementElement {
    StatementElement::If(IfStatement {
        span: at(0, 0),
        condition,
        consequence: Box::new(consequence),
        alternative: alternative.map(Box::new),
    })
}

fn i32_param(value: &str) -> FormalParameterArg {
    FormalParameterArg {
        ident: Ident::from_string(value.to_string(), at(0, 0)),
        type_annotation: TypeAnnotation::Primary(PrimaryTypeAnnotation::Primitive(Primitive::I32)),
    }
}

fn i32_annotation() -> Option<TypeAnnotation> {
    Some(TypeAnnotation::Primary(PrimaryTypeAnnotation::Primitive(Primitive::I32)))
}

/// The span of the function `test` of the tests.
fn test_span() -> Span {
    at(0, 100)
}

fn function(
    value: &str,
    span: Span,
    parameters: Vec<FormalParameterArg>,
    returns: Option<TypeAnnotation>,
    statements: Vec<StatementElement>,
) -> FunctionDeclarationElement {
    FunctionDeclarationElement {
        span,
        decorators: FunctionDecorators { annotations: vec![], export: false },
        ident: Ident::from_string(value.to_string(), at(0, 0)),
        params: FormalParameterList { parameters },
        returns,
        body: FunctionBody {
            span,
            source_elements: SourceElements {
                source_elements: statements.into_iter().map(SourceElement::Statement).collect(),
            },
        },
    }
}

fn ast(source_elements: Vec<SourceElement>) -> Ast {
    Ast::new(Program { source_elements: SourceElements { source_elements } })
}

fn ast_of(function: FunctionDeclarationElement) -> Ast {
    ast(vec![SourceElement::FunctionDeclaration(function)])
}

/// The declarations that semantic analysis leaves for one function.
fn analyzed(span: Span, names: Vec<(&str, Type)>, result: Option<Type>) -> SemanticSymbolTable {
    let mut table = SemanticSymbolTable::new();
    declare(&mut table, span, names, result);
    table
}

fn declare(table: &mut SemanticSymbolTable, span: Span, names: Vec<(&str, Type)>, result: Option<Type>) {
    table.push_scope(span, result);
    for (name, ty) in names {
        table.define(name.to_string(), ty);
    }
    table.pop_scope();
}

fn i32_const(value: i32) -> Box<Instruction> {
    Box::new(Instruction::I32Const(value))
}

fn empty_module() -> Module {
    Module { globals: vec![], imports: vec![], exports: vec![], types: vec![], functions: vec![] }
}

#[test]
fn lib_test_empty_ast_generates_empty_module() {
    let ast = ast(vec![]);
    let mut generator = CodeGenerator::new(SemanticSymbolTable::new());
    let actual = generator.generate_module(&ast).unwrap();
    assert_eq!(actual, &empty_module());
}

#[test]
fn mod_test_empty_ast_generates_empty_module() {
    let ast = ast(vec![]);
    let mut generator = CodeGenerator::new(SemanticSymbolTable::new());
    let module = generator.generate_module(&ast).unwrap();

    assert_eq!(
        module,
        &Module {
            globals: vec![],
            imports: vec![],
            exports: vec![],
            types: vec![],
            functions: vec![]
        }
    )
}

fn module_of_test(types: Vec<FunctionType>, instructions: Vec<Instruction>) -> Module {
    Module {
        globals: vec![],
        imports: vec![],
        exports: vec![],
        types,
        functions: vec![Function { name: "test".to_string(), type_idx: 0, instructions }],
    }
}

fn generate_empty_function() -> Module {
    let ast = ast_of(function("test", test_span(), vec![], None, vec![]));
    let mut generator = CodeGenerator::new(analyzed(test_span(), vec![], None));
    generator.generate_module(&ast).unwrap();
    generator.module
}

#[test]
fn lib_test_ast_with_empty_function_generates_module() {
    let actual = generate_empty_function();
    assert_eq!(
        actual,
        module_of_test(
            vec![FunctionType { params: vec![], ret: None }],
            vec![Instruction::Block(0, vec![])]
        )
    );
}

#[test]
fn mod_test_ast_with_empty_function_generates_module() {
    let module = generate_empty_function();
    assert_eq!(
        module,
        Module {
            globals: vec![],
            imports: vec![],
            exports: vec![],
            types: vec![FunctionType { params: vec![], ret: None }],
            functions: vec![Function {
                name: "test".to_string(),
                type_idx: 0,
                instructions: vec![Instruction::Block(0, vec![])]
            }]
        }
    )
}

fn generate_function_with_params() -> Module {
    let ast = ast_of(function("test", test_span(), vec![i32_param("a")], None, vec![]));
    let mut generator =
        CodeGenerator::new(analyzed(test_span(), vec![("a", i32_type())], None));
    generator.generate_module(&ast).unwrap();
    generator.module
}

#[test]
fn lib_test_ast_with_empty_function_with_params_generates_module() {
    let actual = generate_function_with_params();
    assert_eq!(
        actual,
        module_of_test(
            vec![FunctionType { params: vec![("a".to_string(), ValueType::I32)], ret: None }],
            vec![Instruction::Block(0, vec![])]
        )
    );
}

#[test]
fn mod_test_ast_with_empty_function_with_params_generates_module() {
    let module = generate_function_with_params();
    assert_eq!(
        module,
        Module {
            globals: vec![],
            imports: vec![],
            exports: vec![],
            types: vec![FunctionType {
                params: vec![("a".to_string(), ValueType::I32)],
                ret: None
            }],
            functions: vec![Function {
                name: "test".to_string(),
                type_idx: 0,
                instructions: vec![Instruction::Block(0, vec![])]
            }]
        }
    )
}

fn generate_function_with_params_and_return_value() -> Module {
    let ast =
        ast_of(function("test", test_span(), vec![i32_param("a")], i32_annotation(), vec![]));
    let mut generator = CodeGenerator::new(analyzed(
        test_span(),
        vec![("a", i32_type())],
        Some(i32_type()),
    ));
    generator.generate_module(&ast).unwrap();
    generator.module
}

#[test]
fn lib_test_ast_with_empty_function_with_params_and_return_value_generates_module() {
    let actual = generate_function_with_params_and_return_value();
    assert_eq!(
        actual,
        module_of_test(
            vec![FunctionType {
                params: vec![("a".to_string(), ValueType::I32)],
                ret: Some(ValueType::I32)
            }],
            vec![
                Instruction::Local("return".to_string(), ValueType::I32),
                Instruction::Block(0, vec![]),
                Instruction::SynthReturn
            ]
        )
    );
}

#[test]
fn mod_test_ast_with_empty_function_with_params_and_return_value_generates_module() {
    let module = generate_function_with_params_and_return_value();
    assert_eq!(
        module,
        Module {
            globals: vec![],
            imports: vec![],
            exports: vec![],
            types: vec![FunctionType {
                params: vec![("a".to_string(), ValueType::I32)],
                ret: Some(ValueType::I32)
            }],
            functions: vec![Function {
                name: "test".to_string(),
                type_idx: 0,
                instructions: vec![
                    Instruction::Local("return".to_string(), ValueType::I32),
                    Instruction::Block(0, vec![]),
                    Instruction::SynthReturn
                ]
            }]
        }
    )
}

fn generate_function_containing_return_expression() -> Module {
    let ast = ast_of(function("test", test_span(), vec![], None, vec![ret(plus(integer(1), integer(2)))]));
    let mut generator = CodeGenerator::new(analyzed(test_span(), vec![], None));
    generator.generate_module(&ast).unwrap();
    generator.module
}

fn one_plus_two() -> Instruction {
    Instruction::Return(Box::new(Instruction::I32Add(i32_const(1), i32_const(2))))
}

#[test]
fn lib_test_ast_with_function_containing_return_expression_generates_module() {
    let actual = generate_function_containing_return_expression();
    assert_eq!(
        actual,
        module_of_test(
            vec![FunctionType { params: vec![], ret: None }],
            vec![Instruction::Block(0, vec![one_plus_two()])]
        )
    );
}

#[test]
fn mod_test_ast_with_function_containing_return_expression_generates_module() {
    let module = generate_function_containing_return_expression();
    assert_eq!(
        module,
        Module {
            globals: vec![],
            imports: vec![],
            exports: vec![],
            types: vec![FunctionType { params: vec![], ret: None }],
            functions: vec![Function {
                name: "test".to_string(),
                type_idx: 0,
                instructions: vec![Instruction::Block(
                    0,
                    vec![Instruction::Return(Box::new(Instruction::I32Add(
                        Box::new(Instruction::I32Const(1)),
                        Box::new(Instruction::I32Const(2)),
                    )))]
                )]
            }]
        }
    )
}

#[test]
fn test_function_with_result_returns_through_synthetic_return() {
    let ast = ast_of(function(
        "test",
        test_span(),
        vec![i32_param("a")],
        i32_annotation(),
        vec![ret(plus(integer(1), integer(2)))],
    ));
    let mut generator = CodeGenerator::new(analyzed(
        test_span(),
        vec![("a", i32_type())],
        Some(i32_type()),
    ));
    let module = generator.generate_module(&ast).unwrap();
    assert_eq!(
        module.functions[0].instructions,
        vec![
            Instruction::Local("return".to_string(), ValueType::I32),
            Instruction::Block(0, vec![one_plus_two()]),
            Instruction::SynthReturn
        ]
    );
}

#[test]
fn test_parameter_is_defined_with_its_index() {
    let mut generator = CodeGenerator::new(analyzed(
        test_span(),
        vec![("a", i32_type()), ("b", f32_type())],
        None,
    ));
    generator.semantic_symbols.push_scope(test_span(), None);
    generator.wast_symbols.push_scope();
    let params = FormalParameterList { parameters: vec![i32_param("a"), i32_param("b")] };
    let types = generator.define_parameters(&params).unwrap();
    assert_eq!(
        types,
        vec![("a".to_string(), ValueType::I32), ("b".to_string(), ValueType::F32)]
    );
    assert_eq!(
        generator.wast_symbols.lookup(&"a".to_string()),
        Some(WastSymbol::Param(0, ValueType::I32))
    );
    assert_eq!(
        generator.wast_symbols.lookup(&"b".to_string()),
        Some(WastSymbol::Param(1, ValueType::F32))
    );
}

fn array(values: Vec<i32>) -> SingleExpression {
    SingleExpression::Literal(Literal::Array(ArrayLiteral {
        span: at(0, 0),
        elements: values.into_iter().map(integer).collect(),
    }))
}

fn index(target: SingleExpression, position: SingleExpression) -> SingleExpression {
    SingleExpression::MemberIndex(MemberIndexExpression {
        span: at(0, 0),
        target: Box::new(target),
        index: Box::new(position),
        ty: i32_type(),
    })
}

fn array_type() -> Type {
    Type::Array(Box::new(i32_type()))
}

fn local_get(value: &str) -> Instruction {
    Instruction::LocalGet(value.to_string())
}

fn push_to(pointer: &str, value: i32) -> Instruction {
    Instruction::I32Store(
        Box::new(Instruction::Call("arrayPush".to_string(), vec![local_get(pointer)])),
        i32_const(value),
    )
}

#[test]
fn test_array_literals_and_array_index_assignment() {
    let ast = ast_of(function(
        "test",
        test_span(),
        vec![],
        None,
        vec![
            let_("x", array(vec![1, 2, 3, 4, 5])),
            expression(assign(index(name("x", array_type()), integer(0)), integer(99))),
        ],
    ));
    let mut generator =
        CodeGenerator::new(analyzed(test_span(), vec![("x", array_type())], None));
    let actual = generator.generate_module(&ast).unwrap();

    assert_eq!(actual.types, vec![FunctionType { params: vec![], ret: None }]);
    assert_eq!(actual.functions.len(), 1);
    assert_eq!(
        actual.functions[0].instructions,
        vec![
            Instruction::Local("x".to_string(), ValueType::I32),
            Instruction::Local("#r0".to_string(), ValueType::I32),
            Instruction::Block(
                0,
                vec![
                    Instruction::LocalSet(
                        "x".to_string(),
                        Box::new(Instruction::Complex(vec![
                            Instruction::LocalSet(
                                "#r0".to_string(),
                                Box::new(Instruction::Call(
                                    "arrayNew".to_string(),
                                    vec![Instruction::I32Const(4)]
                                ))
                            ),
                            push_to("#r0", 1),
                            push_to("#r0", 2),
                            push_to("#r0", 3),
                            push_to("#r0", 4),
                            push_to("#r0", 5),
                            local_get("#r0"),
                        ]))
                    ),
                    Instruction::I32Store(
                        Box::new(Instruction::Call(
                            "arrayAt".to_string(),
                            vec![local_get("x"), Instruction::I32Const(0)]
                        )),
                        i32_const(99)
                    ),
                ]
            ),
        ]
    );
}

#[test]
fn test_generation_leaves_the_generator_at_rest() {
    let ast = ast_of(function(
        "test",
        test_span(),
        vec![i32_param("a")],
        None,
        vec![while_(
            less(name("a", i32_type()), integer(10)),
            block(vec![if_(name("a", i32_type()), ret(integer(1)), Some(ret(integer(2))))]),
        )],
    ));
    let mut generator =
        CodeGenerator::new(analyzed(test_span(), vec![("a", i32_type())], None));
    assert_eq!(generator.wast_symbols.depth(), 1);
    assert!(generator.generate_module(&ast).is_ok());
    assert_eq!(generator.wast_symbols.depth(), 1);
    assert_eq!(generator.semantic_symbols.depth(), 1);
    assert_eq!(generator.scopes.len(), 0);
}

#[test]
fn test_generation_leaves_the_generator_at_rest_after_an_error() {
    let string = SingleExpression::Literal(Literal::String(StringLiteral {
        span: at(3, 4),
        value: "text".to_string(),
    }));
    let ast = ast_of(function(
        "test",
        test_span(),
        vec![i32_param("a")],
        None,
        vec![while_(integer(1), block(vec![if_(integer(1), expression(string), None)]))],
    ));
    let mut generator =
        CodeGenerator::new(analyzed(test_span(), vec![("a", i32_type())], None));
    let error = generator.generate_module(&ast).unwrap_err();
    assert_eq!(error.kind, jswt::codegen::error::CodegenErrorKind::UnsupportedLiteral);
    assert_eq!(error.span, at(3, 4));
    assert_eq!(generator.wast_symbols.depth(), 1);
    assert_eq!(generator.semantic_symbols.depth(), 1);
    assert_eq!(generator.scopes.len(), 0);
}

#[test]
fn test_equal_signatures_share_one_type() {
    let first = at(0, 10);
    let second = at(10, 20);
    let third = at(20, 30);
    let ast = ast(vec![
        SourceElement::FunctionDeclaration(function("f", first, vec![i32_param("a")], None, vec![])),
        SourceElement::FunctionDeclaration(function("g", second, vec![i32_param("a")], None, vec![])),
        SourceElement::FunctionDeclaration(function("h", third, vec![i32_param("b")], None, vec![])),
    ]);
    let mut table = SemanticSymbolTable::new();
    declare(&mut table, first, vec![("a", i32_type())], None);
    declare(&mut table, second, vec![("a", i32_type())], None);
    declare(&mut table, third, vec![("b", i32_type())], None);
    let mut generator = CodeGenerator::new(table);
    let module = generator.generate_module(&ast).unwrap();
    // The names of the parameters are part of a signature
    assert_eq!(
        module.types,
        vec![
            FunctionType { params: vec![("a".to_string(), ValueType::I32)], ret: None },
            FunctionType { params: vec![("b".to_string(), ValueType::I32)], ret: None },
        ]
    );
    let indexes: Vec<usize> = module.functions.iter().map(|f| f.type_idx).collect();
    assert_eq!(indexes, vec![0, 0, 1]);
}

#[test]
fn test_push_type_reuses_an_equal_signature() {
    let mut generator = CodeGenerator::new(SemanticSymbolTable::new());
    let unit = || FunctionType { params: vec![], ret: None };
    let with_result = || FunctionType { params: vec![], ret: Some(ValueType::I32) };
    assert_eq!(generator.push_type(unit()), 0);
    assert_eq!(generator.push_type(with_result()), 1);
    assert_eq!(generator.push_type(unit()), 0);
    assert_eq!(generator.push_type(with_result()), 1);
    assert_eq!(generator.module.types.len(), 2);
}

fn loop_labels(instructions: &[Instruction], into: &mut Vec<usize>) {
    for instruction in instructions {
        match instruction {
            Instruction::Loop(label, body) => {
                into.push(*label);
                loop_labels(body, into);
            }
            Instruction::If(_, consequence, alternative) => {
                loop_labels(consequence, into);
                loop_labels(alternative, into);
            }
            Instruction::Block(_, body) => loop_labels(body, into),
            _ => {}
        }
    }
}

#[test]
fn test_every_loop_gets_a_label_of_its_own() {
    let inner = while_(integer(1), block(vec![]));
    let outer = while_(integer(1), block(vec![inner, while_(integer(0), block(vec![]))]));
    let first = at(0, 10);
    let second = at(10, 20);
    let ast = ast(vec![
        SourceElement::FunctionDeclaration(function("f", first, vec![], None, vec![outer])),
        SourceElement::FunctionDeclaration(function(
            "g",
            second,
            vec![],
            None,
            vec![while_(integer(1), block(vec![]))],
        )),
    ]);
    let mut table = SemanticSymbolTable::new();
    declare(&mut table, first, vec![], None);
    declare(&mut table, second, vec![], None);
    let mut generator = CodeGenerator::new(table);
    let module = generator.generate_module(&ast).unwrap();

    let mut labels = vec![];
    loop_labels(&module.functions[0].instructions, &mut labels);
    assert_eq!(labels, vec![0, 1, 2]);
    let mut labels = vec![];
    loop_labels(&module.functions[1].instructions, &mut labels);
    // The counter is never set back
    assert_eq!(labels, vec![3]);
    assert_eq!(generator.label_counter, 4);
}

#[test]
fn test_while_becomes_a_guarded_loop() {
    let ast = ast_of(function(
        "test",
        test_span(),
        vec![i32_param("a")],
        None,
        vec![while_(less(name("a", i32_type()), integer(10)), expression(call("println", vec![integer(7)])))],
    ));
    let mut generator =
        CodeGenerator::new(analyzed(test_span(), vec![("a", i32_type())], None));
    let module = generator.generate_module(&ast).unwrap();
    assert_eq!(
        module.functions[0].instructions,
        vec![Instruction::Block(
            0,
            vec![Instruction::Loop(
                0,
                vec![Instruction::If(
                    Box::new(Instruction::I32Lt(Box::new(local_get("a")), i32_const(10))),
                    vec![
                        Instruction::Call("println".to_string(), vec![Instruction::I32Const(7)]),
                        Instruction::BrLoop(0)
                    ],
                    vec![]
                )]
            )]
        )]
    );
}

#[test]
fn test_if_collects_both_branches() {
    let ast = ast_of(function(
        "test",
        test_span(),
        vec![],
        None,
        vec![
            if_(integer(1), ret(integer(2)), Some(block(vec![ret(integer(3)), ret(integer(4))]))),
            if_(integer(0), StatementElement::Empty(EmptyStatement { span: at(0, 0) }), None),
        ],
    ));
    let mut generator = CodeGenerator::new(analyzed(test_span(), vec![], None));
    let module = generator.generate_module(&ast).unwrap();
    assert_eq!(
        module.functions[0].instructions,
        vec![Instruction::Block(
            0,
            vec![
                Instruction::If(
                    i32_const(1),
                    vec![Instruction::Return(i32_const(2))],
                    vec![Instruction::Return(i32_const(3)), Instruction::Return(i32_const(4))]
                ),
                Instruction::If(i32_const(0), vec![], vec![]),
            ]
        )]
    );
}

#[test]
fn test_variable_of_the_global_scope_becomes_a_global() {
    let ast = ast(vec![SourceElement::Statement(let_("counter", plus(integer(1), integer(2))))]);
    let mut table = SemanticSymbolTable::new();
    table.push_global_scope();
    table.define("counter".to_string(), i32_type());
    table.pop_scope();
    let mut generator = CodeGenerator::new(table);
    let module = generator.generate_module(&ast).unwrap();
    assert_eq!(
        module.globals,
        vec![GlobalType {
            name: "counter".to_string(),
            ty: ValueType::I32,
            mutable: true,
            initializer: Instruction::I32Add(i32_const(1), i32_const(2)),
        }]
    );
    assert!(module.functions.is_empty());
    assert_eq!(
        generator.wast_symbols.lookup_global(&"counter".to_string()),
        Some(WastSymbol::Global(ValueType::I32))
    );
}

#[test]
fn test_names_resolve_to_locals_and_globals() {
    let span = test_span();
    let ast = ast(vec![
        SourceElement::Statement(let_("g", integer(1))),
        SourceElement::FunctionDeclaration(function(
            "test",
            span,
            vec![i32_param("a")],
            None,
            vec![
                let_("x", name("a", i32_type())),
                expression(assign(name("x", i32_type()), name("g", i32_type()))),
                expression(assign(name("g", i32_type()), name("x", i32_type()))),
            ],
        )),
    ]);
    let mut table = SemanticSymbolTable::new();
    table.push_global_scope();
    table.define("g".to_string(), i32_type());
    table.pop_scope();
    declare(&mut table, span, vec![("a", i32_type()), ("x", f32_type())], None);
    let mut generator = CodeGenerator::new(table);
    let module = generator.generate_module(&ast).unwrap();
    assert_eq!(
        module.functions[0].instructions,
        vec![
            Instruction::Local("x".to_string(), ValueType::F32),
            Instruction::Block(
                0,
                vec![
                    Instruction::LocalSet("x".to_string(), Box::new(local_get("a"))),
                    Instruction::LocalSet(
                        "x".to_string(),
                        Box::new(Instruction::GlobalGet("g".to_string()))
                    ),
                    Instruction::GlobalSet("g".to_string(), Box::new(local_get("x"))),
                ]
            )
        ]
    );
}

fn unary(op: UnaryOperator, operand: SingleExpression) -> SingleExpression {
    SingleExpression::Unary(UnaryExpression {
        span: at(5, 6),
        op,
        expr: Box::new(operand),
        ty: i32_type(),
    })
}

fn generated(expression: SingleExpression) -> Result<Instruction, jswt::codegen::error::CodegenError> {
    let mut generator = CodeGenerator::new(SemanticSymbolTable::new());
    generator.visit_single_expression(&expression)
}

#[test]
fn test_unary_operators() {
    assert_eq!(generated(unary(UnaryOperator::Plus(at(0, 0)), integer(5))), Ok(Instruction::I32Const(5)));
    assert_eq!(
        generated(unary(UnaryOperator::Minus(at(0, 0)), integer(5))),
        Ok(Instruction::I32Sub(i32_const(0), i32_const(5)))
    );
    assert_eq!(
        generated(unary(UnaryOperator::Not(at(0, 0)), integer(5))),
        Ok(Instruction::I32Xor(i32_const(5), i32_const(-1)))
    );
}

#[test]
fn test_binary_operators_on_i32() {
    let cases: Vec<(BinaryOperator, fn(Box<Instruction>, Box<Instruction>) -> Instruction)> = vec![
        (BinaryOperator::Plus(at(0, 0)), Instruction::I32Add),
        (BinaryOperator::Minus(at(0, 0)), Instruction::I32Sub),
        (BinaryOperator::Mult(at(0, 0)), Instruction::I32Mul),
        (BinaryOperator::Div(at(0, 0)), Instruction::I32Div),
        (BinaryOperator::Equal(at(0, 0)), Instruction::I32Eq),
        (BinaryOperator::NotEqual(at(0, 0)), Instruction::I32Neq),
        (BinaryOperator::Greater(at(0, 0)), Instruction::I32Gt),
        (BinaryOperator::GreaterEqual(at(0, 0)), Instruction::I32Ge),
        (BinaryOperator::Less(at(0, 0)), Instruction::I32Lt),
        (BinaryOperator::LessEqual(at(0, 0)), Instruction::I32Le),
        (BinaryOperator::And(at(0, 0)), Instruction::I32And),
        (BinaryOperator::Or(at(0, 0)), Instruction::I32Or),
    ];
    for (op, instruction) in cases {
        let expression = SingleExpression::Multiplicative(binary(integer(6), op, integer(7)));
        assert_eq!(generated(expression), Ok(instruction(i32_const(6), i32_const(7))));
    }
}

fn float(value: f32) -> SingleExpression {
    SingleExpression::Literal(Literal::Float(FloatLiteral { span: at(0, 0), bits: value.to_bits() }))
}

#[test]
fn test_binary_plus_on_f32() {
    let expression = plus(float(1.5), float(2.0));
    assert_eq!(
        generated(expression),
        Ok(Instruction::F32Add(
            Box::new(Instruction::F32Const(1.5f32.to_bits())),
            Box::new(Instruction::F32Const(0x4000_0000))
        ))
    );
}

#[test]
fn test_literals() {
    let truth = |value| {
        SingleExpression::Literal(Literal::Boolean(BooleanLiteral { span: at(0, 0), value }))
    };
    assert_eq!(generated(truth(true)), Ok(Instruction::I32Const(1)));
    assert_eq!(generated(truth(false)), Ok(Instruction::I32Const(0)));
    assert_eq!(generated(integer(-12)), Ok(Instruction::I32Const(-12)));
    assert_eq!(generated(float(0.5)), Ok(Instruction::F32Const(0x3f00_0000)));
}

#[test]
fn test_call_and_member_index() {
    assert_eq!(
        generated(call("f", vec![integer(1), plus(integer(2), integer(3))])),
        Ok(Instruction::Call(
            "f".to_string(),
            vec![Instruction::I32Const(1), Instruction::I32Add(i32_const(2), i32_const(3))]
        ))
    );
    assert_eq!(
        generated(index(name("a", array_type()), integer(3))),
        Ok(Instruction::Call(
            "arrayAt".to_string(),
            vec![Instruction::GlobalGet("a".to_string()), Instruction::I32Const(3)]
        ))
    );
}

fn annotated(annotations: Vec<Annotation>, export: bool) -> FunctionDeclarationElement {
    let mut declaration =
        function("test", test_span(), vec![i32_param("a")], None, vec![ret(integer(1))]);
    declaration.decorators = FunctionDecorators { annotations, export };
    declaration
}

fn annotation(value: &str, text: Option<&str>) -> Annotation {
    Annotation {
        span: at(40, 50),
        name: Ident::from_string(value.to_string(), at(0, 0)),
        expr: text.map(|text| {
            SingleExpression::Literal(Literal::String(StringLiteral {
                span: at(0, 0),
                value: text.to_string(),
            }))
        }),
    }
}

#[test]
fn test_wast_annotation_gives_the_body() {
    let ast = ast_of(annotated(
        vec![annotation("inline", None), annotation("wast", Some("(i32.const 1)"))],
        false,
    ));
    let mut generator =
        CodeGenerator::new(analyzed(test_span(), vec![("a", i32_type())], None));
    let module = generator.generate_module(&ast).unwrap();
    assert_eq!(
        module.functions,
        vec![Function {
            name: "test".to_string(),
            type_idx: 0,
            instructions: vec![Instruction::RawWast("(i32.const 1)".to_string())],
        }]
    );
    assert!(module.imports.is_empty());
}

#[test]
fn test_native_annotation_imports_the_function() {
    let ast = ast_of(annotated(vec![annotation("native", Some("env"))], true));
    let mut generator =
        CodeGenerator::new(analyzed(test_span(), vec![("a", i32_type())], None));
    let module = generator.generate_module(&ast).unwrap();
    assert_eq!(
        module.imports,
        vec![Import::Function(FunctionImport {
            name: "test".to_string(),
            type_idx: 0,
            module: "env".to_string(),
        })]
    );
    assert!(module.functions.is_empty());
    assert!(module.exports.is_empty());
    assert_eq!(module.types.len(), 1);
}

#[test]
fn test_exported_function_gets_an_export() {
    let first = at(0, 10);
    let mut exported = function("main", test_span(), vec![], None, vec![]);
    exported.decorators.export = true;
    let ast = ast(vec![
        SourceElement::FunctionDeclaration(function("helper", first, vec![], None, vec![])),
        SourceElement::FunctionDeclaration(exported),
    ]);
    let mut table = SemanticSymbolTable::new();
    declare(&mut table, first, vec![], None);
    declare(&mut table, test_span(), vec![], None);
    let mut generator = CodeGenerator::new(table);
    let module = generator.generate_module(&ast).unwrap();
    assert_eq!(
        module.exports,
        vec![Export::Function(FunctionExport { function_idx: 1, name: "main".to_string() })]
    );
}

#[test]
fn test_push_functions_return_the_index_of_what_they_add() {
    let mut generator = CodeGenerator::new(SemanticSymbolTable::new());
    let function = |value: &str| Function {
        name: value.to_string(),
        type_idx: 0,
        instructions: vec![],
    };
    assert_eq!(generator.push_function(function("a")), 0);
    assert_eq!(generator.push_function(function("b")), 1);
    let export = || Export::Function(FunctionExport { function_idx: 0, name: "a".to_string() });
    assert_eq!(generator.push_export(export()), 0);
    let import = || {
        Import::Function(FunctionImport {
            name: "println".to_string(),
            type_idx: 0,
            module: "env".to_string(),
        })
    };
    assert_eq!(generator.push_import(import()), 0);
    assert_eq!(generator.push_import(import()), 1);
    let global = GlobalType {
        name: "g".to_string(),
        ty: ValueType::I32,
        mutable: true,
        initializer: Instruction::Noop,
    };
    assert_eq!(generator.push_global(global), 0);
}

#[test]
fn test_instruction_scopes_are_a_stack() {
    let mut generator = CodeGenerator::new(SemanticSymbolTable::new());
    assert!(generator.pop_instruction_scope().is_none());
    generator.push_instruction_scope();
    generator.push_instruction(Instruction::Noop, at(0, 0)).unwrap();
    generator.push_instruction_scope();
    generator.push_instruction(Instruction::SynthReturn, at(0, 0)).unwrap();
    let inner = generator.pop_instruction_scope().unwrap();
    assert_eq!(inner.instructions, vec![Instruction::SynthReturn]);
    let outer = generator.pop_instruction_scope().unwrap();
    assert_eq!(outer.instructions, vec![Instruction::Noop]);
    assert!(generator.pop_instruction_scope().is_none());
}

#[test]
fn test_default_generator_is_at_rest() {
    let mut generator = CodeGenerator::default();
    assert_eq!(generator.module, Module::default());
    assert_eq!(generator.module(), &empty_module());
    assert_eq!(generator.wast_symbols.depth(), 1);
    assert_eq!(generator.semantic_symbols.depth(), 1);
    assert_eq!(generator.scopes.len(), 0);
    assert_eq!(generator.label_counter, 0);
    // A function that semantic analysis has not seen has no result and no names
    let ast = ast_of(function("test", test_span(), vec![], None, vec![]));
    assert!(generator.generate_module(&ast).is_ok());
    assert_eq!(generator.module.functions.len(), 1);
}

#[test]
fn test_loops_inside_a_while_get_the_labels_after_it() {
    let innermost = while_(integer(1), block(vec![]));
    let inside = while_(integer(1), block(vec![innermost]));
    let ast = ast_of(function(
        "test",
        test_span(),
        vec![],
        None,
        vec![while_(integer(1), block(vec![])), while_(integer(1), inside)],
    ));
    let mut generator = CodeGenerator::new(analyzed(test_span(), vec![], None));
    generator.label_counter = 40;
    let module = generator.generate_module(&ast).unwrap();
    let mut labels = vec![];
    loop_labels(&module.functions[0].instructions, &mut labels);
    // Each loop before the loops inside it
    assert_eq!(labels, vec![40, 41, 42, 43]);
    match &module.functions[0].instructions[0] {
        Instruction::Block(0, body) => match &body[1] {
            Instruction::Loop(41, inner) => {
                let mut nested = vec![];
                loop_labels(inner, &mut nested);
                assert_eq!(nested, vec![42, 43]);
            }
            other => panic!("the second statement is the loop 41, not {:?}", other),
        },
        other => panic!("the body is block 0, not {:?}", other),
    }
    assert_eq!(generator.label_counter, 44);
}
