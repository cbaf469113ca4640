use jswt::ast::declaration::{
    Annotation, Ast, ClassBody, ClassDeclarationElement, FormalParameterArg, FormalParameterList,
    FunctionBody, FunctionDeclarationElement, FunctionDecorators, PrimaryTypeAnnotation,
    Primitive, Program, SourceElement, SourceElements, TypeAnnotation,
};
use jswt::ast::expression::{
    ArgumentsExpression, ArgumentsList, ArrayLiteral, BinaryExpression, BinaryOperator,
    IdentifierExpression, IntegerLiteral, Literal, MemberDotExpression, NewExpression,
    SingleExpression, StringLiteral, ThisExpression, UnaryExpression, UnaryOperator,
};
use jswt::ast::statement::{
    AssignableElement, BlockStatement, ExpressionStatement, IterationStatement, ReturnStatement,
    StatementElement, StatementList, VariableModifier, VariableStatement, WhileIterationElement,
};
use jswt::codegen::error::{CodegenError, CodegenErrorKind};
use jswt::codegen::generator::CodeGenerator;
use jswt::ident::{Ident, Identifier};
use jswt::span::Span;
use jswt::symbols::semantic::SemanticSymbolTable;
use jswt::types::{PrimitiveType, Type};

fn at(start: usize, end: usize) -> Span {
    Span::new(1, start, end)
}

fn here() -> Span {
    at(11, 17)
}

fn i32_type() -> Type {
    Type::Primitive(PrimitiveType::I32)
}

fn integer(value: i32) -> SingleExpression {
    SingleExpression::Literal(Literal::Integer(IntegerLiteral { span: at(0, 0), value }))
}

fn name(value: &str, ty: Type) -> SingleExpression {
    SingleExpression::Identifier(IdentifierExpression {
        span: at(0, 0),
        ident: Identifier::from_string(value.to_string(), at(0, 0)),
        ty,
    })
}

fn binary(left: SingleExpression, op: BinaryOperator, right: SingleExpression) -> BinaryExpression {
    BinaryExpression { span: here(), left: Box::new(left), op, right: Box::new(right), ty: i32_type() }
}

fn statement(expression: SingleExpression) -> StatementElement {
    StatementElement::Expression(ExpressionStatement { span: at(0, 0), expression })
}

fn let_(target: &str, expression: SingleExpression) -> StatementElement {
    StatementElement::Variable(VariableStatement {
        span: at(0, 0),
        modifier: VariableModifier::Const(at(0, 0)),
        target: AssignableElement::Identifier(Ident::from_string(target.to_string(), here())),
        expression,
    })
}

fn test_span() -> Span {
    at(0, 100)
}

fn function(parameters: Vec<&str>, statements: Vec<StatementElement>) -> FunctionDeclarationElement {
    FunctionDeclarationElement {
        span: test_span(),
        decorators: FunctionDecorators { annotations: vec![], export: false },
        ident: Ident::from_string("test".to_string(), at(0, 0)),
        params: FormalParameterList {
            parameters: parameters
                .into_iter()
                .map(|value| FormalParameterArg {
                    ident: Ident::from_string(value.to_string(), here()),
                    type_annotation: TypeAnnotation::Primary(PrimaryTypeAnnotation::Primitive(
                        Primitive::I32,
                    )),
                })
                .collect(),
        },
        returns: None,
        body: FunctionBody {
            span: test_span(),
            source_elements: SourceElements {
                source_elements: statements.into_iter().map(SourceElement::Statement).collect(),
            },
        },
    }
}

fn ast(source_elements: Vec<SourceElement>) -> Ast {
    Ast::new(Program { source_elements: SourceElements { source_elements } })
}

fn analyzed(names: Vec<&str>) -> SemanticSymbolTable {
    let mut table = SemanticSymbolTable::new();
    table.push_scope(test_span(), None);
    for name in names {
        table.define(name.to_string(), i32_type());
    }
    table.pop_scope();
    table
}

/// The error of generating `test` with the given body.
fn error_in_function(names: Vec<&str>, statements: Vec<StatementElement>) -> CodegenError {
    let ast = ast(vec![SourceElement::FunctionDeclaration(function(vec![], statements))]);
    let mut generator = CodeGenerator::new(analyzed(names));
    let error = generator.generate_module(&ast).unwrap_err();
    // Whatever went wrong, the scopes are closed again
    assert_eq!(generator.wast_symbols.depth(), 1);
    assert_eq!(generator.semantic_symbols.depth(), 1);
    assert_eq!(generator.scopes.len(), 0);
    error
}

fn error_of(expression: SingleExpression) -> CodegenError {
    error_in_function(vec![], vec![statement(expression)])
}

fn expect(error: CodegenError, kind: CodegenErrorKind) {
    assert_eq!(error, CodegenError { kind, span: here() });
}

#[test]
fn test_f32_has_only_plus() {
    let half = || {
        SingleExpression::Literal(Literal::Float(jswt::ast::expression::FloatLiteral {
            span: at(0, 0),
            bits: 0.5f32.to_bits(),
        }))
    };
    let error = error_of(SingleExpression::Additive(binary(
        half(),
        BinaryOperator::Minus(at(0, 0)),
        half(),
    )));
    expect(error, CodegenErrorKind::UnsupportedOperator);
    assert!(error.kind.is_unsupported());
    assert_eq!(error.description(), "operator is not implemented for this type");
}

#[test]
fn test_assignment_operator_in_a_binary_expression_is_unsupported() {
    let error = error_of(SingleExpression::Additive(binary(
        integer(1),
        BinaryOperator::Assign(at(0, 0)),
        integer(2),
    )));
    expect(error, CodegenErrorKind::UnsupportedOperator);
}

#[test]
fn test_post_increment_and_decrement_are_unsupported() {
    for op in [UnaryOperator::PostIncrement(at(0, 0)), UnaryOperator::PostDecrement(at(0, 0))] {
        let error = error_of(SingleExpression::Unary(UnaryExpression {
            span: here(),
            op,
            expr: Box::new(integer(1)),
            ty: i32_type(),
        }));
        expect(error, CodegenErrorKind::UnsupportedOperator);
    }
}

#[test]
fn test_operands_that_are_neither_i32_nor_f32_are_unsupported() {
    let types = vec![
        Type::Primitive(PrimitiveType::U32),
        Type::Primitive(PrimitiveType::Boolean),
        Type::Array(Box::new(i32_type())),
        Type::String,
        Type::Object("Point".to_string()),
        Type::Function(vec![i32_type()], Box::new(Type::Void)),
        Type::Void,
        Type::Unknown,
    ];
    for ty in types {
        let error = error_of(SingleExpression::Equality(binary(
            name("a", ty),
            BinaryOperator::Equal(at(0, 0)),
            integer(2),
        )));
        expect(error, CodegenErrorKind::UnsupportedOperandType);
        assert_eq!(error.description(), "operand type is not implemented");
    }
}

#[test]
fn test_string_literal_is_unsupported() {
    let error = error_of(SingleExpression::Literal(Literal::String(StringLiteral {
        span: here(),
        value: "text".to_string(),
    })));
    expect(error, CodegenErrorKind::UnsupportedLiteral);
    assert_eq!(error.description(), "literal is not implemented");
}

#[test]
fn test_annotation_without_a_string_is_unsupported() {
    for value in ["wast", "native"] {
        let mut declaration = function(vec![], vec![]);
        declaration.decorators.annotations = vec![Annotation {
            span: here(),
            name: Ident::from_string(value.to_string(), at(0, 0)),
            expr: Some(integer(1)),
        }];
        let ast = ast(vec![SourceElement::FunctionDeclaration(declaration)]);
        let mut generator = CodeGenerator::new(analyzed(vec![]));
        let error = generator.generate_module(&ast).unwrap_err();
        expect(error, CodegenErrorKind::UnsupportedAnnotation);
        assert_eq!(error.description(), "annotation needs a string literal");
        assert_eq!(generator.scopes.len(), 0);
        assert_eq!(generator.wast_symbols.depth(), 1);
    }
}

#[test]
fn test_call_target_must_be_a_name() {
    let error = error_of(SingleExpression::Arguments(ArgumentsExpression {
        span: here(),
        ident: Box::new(integer(1)),
        arguments: ArgumentsList { span: at(0, 0), arguments: vec![] },
        ty: i32_type(),
    }));
    expect(error, CodegenErrorKind::InvalidCallTarget);
    assert!(!error.kind.is_unsupported());
    assert_eq!(error.description(), "call target is not a name");
}

#[test]
fn test_assignment_target_must_be_assignable() {
    let error = error_of(SingleExpression::Assignment(binary(
        integer(1),
        BinaryOperator::Assign(at(0, 0)),
        integer(2),
    )));
    expect(error, CodegenErrorKind::InvalidAssignmentTarget);
    assert_eq!(error.description(), "assignment target is not assignable");
}

#[test]
fn test_parameter_without_declaration() {
    let ast = ast(vec![SourceElement::FunctionDeclaration(function(vec!["a"], vec![]))]);
    let mut generator = CodeGenerator::new(SemanticSymbolTable::new());
    let error = generator.generate_module(&ast).unwrap_err();
    expect(error, CodegenErrorKind::UndefinedSymbol);
    assert_eq!(error.description(), "name has no declaration");
    assert_eq!(generator.wast_symbols.depth(), 1);
    assert_eq!(generator.scopes.len(), 0);
}

#[test]
fn test_variable_without_declaration() {
    let error = error_in_function(vec![], vec![let_("x", integer(1))]);
    expect(error, CodegenErrorKind::UndefinedSymbol);
}

#[test]
fn test_variable_that_is_defined_already() {
    let error = error_in_function(vec!["x"], vec![let_("x", integer(1)), let_("x", integer(2))]);
    expect(error, CodegenErrorKind::AlreadyDefined);
    assert_eq!(error.description(), "name is already defined");
}

#[test]
fn test_what_desugaring_removes_is_not_generated() {
    let this = || SingleExpression::This(ThisExpression { span: here(), ty: Type::Unknown });
    expect(error_of(this()), CodegenErrorKind::NotLowered);
    let dot = SingleExpression::MemberDot(MemberDotExpression {
        span: here(),
        target: Box::new(this()),
        expression: Box::new(name("x", i32_type())),
        ty: i32_type(),
    });
    expect(error_of(dot), CodegenErrorKind::NotLowered);
    let new = SingleExpression::New(NewExpression {
        span: here(),
        expression: Box::new(integer(1)),
        ty: Type::Unknown,
    });
    let error = error_of(new);
    expect(error, CodegenErrorKind::NotLowered);
    assert_eq!(error.description(), "construct must be desugared first");

    let class = SourceElement::ClassDeclaration(ClassDeclarationElement {
        span: here(),
        ident: Ident::from_string("Point".to_string(), at(0, 0)),
        body: ClassBody { span: at(0, 0), class_elements: vec![] },
    });
    let mut generator = CodeGenerator::new(SemanticSymbolTable::new());
    expect(generator.generate_module(&ast(vec![class])).unwrap_err(), CodegenErrorKind::NotLowered);
}

#[test]
fn test_instruction_outside_a_function() {
    let top_level = StatementElement::Return(ReturnStatement { span: here(), expression: integer(1) });
    let mut generator = CodeGenerator::new(SemanticSymbolTable::new());
    let error = generator.generate_module(&ast(vec![SourceElement::Statement(top_level)])).unwrap_err();
    expect(error, CodegenErrorKind::NoInstructionScope);
    assert_eq!(error.description(), "instruction outside a function");

    // An empty block emits nothing, so it may stand anywhere
    let empty = StatementElement::Block(BlockStatement {
        span: at(0, 0),
        statements: StatementList { statements: vec![] },
    });
    let mut generator = CodeGenerator::new(SemanticSymbolTable::new());
    assert!(generator.generate_module(&ast(vec![SourceElement::Statement(empty)])).is_ok());
}

fn looping() -> StatementElement {
    StatementElement::Iteration(IterationStatement::While(WhileIterationElement {
        span: here(),
        expression: integer(1),
        statement: Box::new(StatementElement::Block(BlockStatement {
            span: at(0, 0),
            statements: StatementList { statements: vec![] },
        })),
    }))
}

#[test]
fn test_labels_run_out() {
    let ast = ast(vec![SourceElement::FunctionDeclaration(function(vec![], vec![looping(), looping()]))]);
    let mut generator = CodeGenerator::new(analyzed(vec![]));
    generator.label_counter = usize::MAX - 1;
    let error = generator.generate_module(&ast).unwrap_err();
    expect(error, CodegenErrorKind::LimitExceeded);
    assert_eq!(error.description(), "too many labels or synthetic locals");
    assert_eq!(generator.label_counter, usize::MAX);
    assert_eq!(generator.scopes.len(), 0);
}

#[test]
fn test_synthetic_locals_run_out() {
    let array = SingleExpression::Literal(Literal::Array(ArrayLiteral { span: here(), elements: vec![] }));
    let ast = ast(vec![SourceElement::FunctionDeclaration(function(vec![], vec![statement(array)]))]);
    let mut generator = CodeGenerator::new(analyzed(vec![]));
    generator.wast_symbols.synthetic = usize::MAX;
    let error = generator.generate_module(&ast).unwrap_err();
    expect(error, CodegenErrorKind::LimitExceeded);
}

#[test]
fn test_the_first_error_is_reported() {
    // The operands are generated before the operator is looked at
    let text =
        SingleExpression::Literal(Literal::String(StringLiteral { span: at(1, 2), value: String::new() }));
    let error = error_of(SingleExpression::Additive(binary(
        name("a", Type::Void),
        BinaryOperator::Plus(at(0, 0)),
        text,
    )));
    assert_eq!(error, CodegenError { kind: CodegenErrorKind::UnsupportedLiteral, span: at(1, 2) });
}
