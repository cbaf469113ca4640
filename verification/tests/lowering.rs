use jswt::ast::declaration::{
    Annotation, Ast, ClassBody, ClassConstructorElement, ClassDeclarationElement, ClassElement,
    ClassFieldElement, ClassMethodElement, FormalParameterArg, FormalParameterList, FunctionBody,
    FunctionDeclarationElement, FunctionDecorators, PrimaryTypeAnnotation, Primitive, Program,
    SourceElement, SourceElements, TypeAnnotation,
};
use jswt::ast::expression::{
    ArgumentsExpression, ArgumentsList, ArrayLiteral, BinaryExpression, BinaryOperator,
    IdentifierExpression, IntegerLiteral, Literal, MemberDotExpression, MemberIndexExpression,
    NewExpression, SingleExpression, ThisExpression, UnaryExpression, UnaryOperator,
};
use jswt::ast::statement::{
    AssignableElement, BlockStatement, ExpressionStatement, IfStatement, IterationStatement,
    ReturnStatement, StatementElement, StatementList, VariableModifier, VariableStatement,
    WhileIterationElement,
};
use jswt::codegen::generator::CodeGenerator;
use jswt::ident::{Ident, Identifier};
use jswt::lowering::error::{LoweringError, LoweringErrorKind};
use jswt::lowering::expressions::AstLowering;
use jswt::lowering::model::BinaryKind;
use jswt::span::Span;
use jswt::symbols::bindings::{BindingsTable, ClassBinding, FieldBinding};
use jswt::symbols::semantic::SemanticSymbolTable;
use jswt::types::{PrimitiveType, Type};
use jswt::wast::{Function, FunctionType, Instruction, ValueType};

fn at(start: usize, end: usize) -> Span {
    Span::new(1, start, end)
}

fn zero() -> Span {
    at(0, 0)
}

fn i32_type() -> Type {
    Type::Primitive(PrimitiveType::I32)
}

fn array_class() -> Type {
    Type::Object("Array".to_string())
}

fn integer(value: i32) -> SingleExpression {
    SingleExpression::Literal(Literal::Integer(IntegerLiteral { span: zero(), value }))
}

fn synthetic_integer(value: i32) -> SingleExpression {
    SingleExpression::Literal(Literal::Integer(IntegerLiteral { span: Span::synthetic(), value }))
}

fn name(value: &str, ty: Type) -> SingleExpression {
    SingleExpression::Identifier(IdentifierExpression {
        span: zero(),
        ident: Identifier::from_string(value.to_string(), zero()),
        ty,
    })
}

fn synthetic_name(value: &str, ty: Type) -> SingleExpression {
    SingleExpression::Identifier(IdentifierExpression {
        span: Span::synthetic(),
        ident: Identifier::from_string(value.to_string(), Span::synthetic()),
        ty,
    })
}

fn synthetic_call(span: Span, callee: &str, arguments: Vec<SingleExpression>, ty: Type) -> SingleExpression {
    SingleExpression::Arguments(ArgumentsExpression {
        span,
        ident: Box::new(synthetic_name(callee, copy(&ty))),
        arguments: ArgumentsList { span: Span::synthetic(), arguments },
        ty,
    })
}

fn copy(ty: &Type) -> Type {
    ty.duplicate()
}

fn this(span: Span) -> SingleExpression {
    SingleExpression::This(ThisExpression { span, ty: array_class() })
}

fn this_dot(span: Span, field: &str) -> SingleExpression {
    SingleExpression::MemberDot(MemberDotExpression {
        span,
        target: Box::new(this(zero())),
        expression: Box::new(name(field, i32_type())),
        ty: i32_type(),
    })
}

fn binary(span: Span, left: SingleExpression, op: BinaryOperator, right: SingleExpression, ty: Type) -> BinaryExpression {
    BinaryExpression { span, left: Box::new(left), op, right: Box::new(right), ty }
}

fn assign(span: Span, left: SingleExpression, right: SingleExpression) -> SingleExpression {
    SingleExpression::Assignment(binary(span, left, BinaryOperator::Assign(zero()), right, Type::Void))
}

fn statement(span: Span, expression: SingleExpression) -> StatementElement {
    StatementElement::Expression(ExpressionStatement { span, expression })
}

fn element(span: Span, expression: SingleExpression) -> SourceElement {
    SourceElement::Statement(statement(span, expression))
}

fn i32_annotation() -> TypeAnnotation {
    TypeAnnotation::Primary(PrimaryTypeAnnotation::Primitive(Primitive::I32))
}

fn i32_param(value: &str) -> FormalParameterArg {
    FormalParameterArg {
        ident: Ident::from_string(value.to_string(), zero()),
        type_annotation: i32_annotation(),
    }
}

fn body(span: Span, source_elements: Vec<SourceElement>) -> FunctionBody {
    FunctionBody { span, source_elements: SourceElements { source_elements } }
}

fn ast(source_elements: Vec<SourceElement>) -> Ast {
    Ast::new(Program { source_elements: SourceElements { source_elements } })
}

fn field(span: Span, value: &str) -> ClassElement {
    ClassElement::Field(ClassFieldElement {
        span,
        ident: Ident::from_string(value.to_string(), zero()),
        type_annotation: i32_annotation(),
    })
}

/// The bindings of `class Array { len: i32; capacity: i32; }`.
fn array_bindings() -> BindingsTable {
    let mut bindings = BindingsTable::new();
    bindings.insert(ClassBinding {
        name: "Array".to_string(),
        size: 8,
        fields: vec![
            FieldBinding { name: "len".to_string(), offset: 0, ty: i32_type() },
            FieldBinding { name: "capacity".to_string(), offset: 4, ty: i32_type() },
        ],
        methods: vec!["grow".to_string()],
    });
    bindings
}

const CLASS: (usize, usize) = (9, 200);
const CLASS_NAME: (usize, usize) = (15, 20);
const CONSTRUCTOR: (usize, usize) = (80, 190);
const CONSTRUCTOR_BODY: (usize, usize) = (117, 190);
const FIRST: (usize, usize) = (135, 150);
const SECOND: (usize, usize) = (167, 190);

fn span_of(range: (usize, usize)) -> Span {
    at(range.0, range.1)
}

/// class Array {
///     len: i32;
///     capacity: i32;
///
///     constructor(len: i32, capacity: i32) {
///         this.len = len;
///         this.capacity = capacity;
///     }
/// }
fn array_class_declaration(more: Vec<ClassElement>) -> SourceElement {
    let mut class_elements = vec![
        field(at(30, 39), "len"),
        field(at(52, 66), "capacity"),
        ClassElement::Constructor(ClassConstructorElement {
            span: span_of(CONSTRUCTOR),
            params: FormalParameterList { parameters: vec![i32_param("len"), i32_param("capacity")] },
            body: body(
                span_of(CONSTRUCTOR_BODY),
                vec![
                    element(
                        span_of(FIRST),
                        assign(span_of(FIRST), this_dot(zero(), "len"), name("len", i32_type())),
                    ),
                    element(
                        span_of(SECOND),
                        assign(
                            span_of(SECOND),
                            this_dot(zero(), "capacity"),
                            name("capacity", i32_type()),
                        ),
                    ),
                ],
            ),
        }),
    ];
    class_elements.extend(more);
    SourceElement::ClassDeclaration(ClassDeclarationElement {
        span: span_of(CLASS),
        ident: Ident::from_string("Array".to_string(), span_of(CLASS_NAME)),
        body: ClassBody { span: span_of(CLASS), class_elements },
    })
}

fn address(offset: i32) -> SingleExpression {
    SingleExpression::Additive(binary(
        Span::synthetic(),
        synthetic_name("this", i32_type()),
        BinaryOperator::Plus(Span::synthetic()),
        synthetic_integer(offset),
        i32_type(),
    ))
}

fn store(span: Span, offset: i32, value: &str) -> SourceElement {
    element(
        span,
        synthetic_call(span, "i32Store", vec![address(offset), name(value, i32_type())], Type::Void),
    )
}

fn allocation(size: i32) -> SourceElement {
    SourceElement::Statement(StatementElement::Variable(VariableStatement {
        span: Span::synthetic(),
        modifier: VariableModifier::Let(Span::synthetic()),
        target: AssignableElement::Identifier(Ident::from_string("this".to_string(), Span::synthetic())),
        expression: synthetic_call(
            Span::synthetic(),
            "objectNew",
            vec![synthetic_integer(size)],
            array_class(),
        ),
    }))
}

fn return_this() -> SourceElement {
    SourceElement::Statement(StatementElement::Return(ReturnStatement {
        span: Span::synthetic(),
        expression: synthetic_name("this", array_class()),
    }))
}

fn array_reference() -> TypeAnnotation {
    TypeAnnotation::Primary(PrimaryTypeAnnotation::Reference(Ident::from_string(
        "Array".to_string(),
        span_of(CLASS_NAME),
    )))
}

fn lowered_constructor() -> SourceElement {
    SourceElement::FunctionDeclaration(FunctionDeclarationElement {
        span: span_of(CONSTRUCTOR),
        decorators: FunctionDecorators { annotations: vec![], export: false },
        ident: Ident::from_string("Array#constructor".to_string(), span_of(CLASS_NAME)),
        params: FormalParameterList { parameters: vec![i32_param("len"), i32_param("capacity")] },
        returns: Some(array_reference()),
        body: body(
            span_of(CONSTRUCTOR_BODY),
            vec![
                allocation(8),
                store(span_of(FIRST), 0, "len"),
                store(span_of(SECOND), 4, "capacity"),
                return_this(),
            ],
        ),
    })
}

fn desugar(ast: &mut Ast) -> Result<(), LoweringError> {
    let mut bindings = array_bindings();
    let mut symbols = SemanticSymbolTable::new();
    let mut lowering = AstLowering::new(&mut bindings, &mut symbols);
    lowering.desugar(ast)
}

#[test]
fn test_class_declaration_lowers_this_binding() {
    let mut ast = ast(vec![array_class_declaration(vec![])]);
    assert_eq!(desugar(&mut ast), Ok(()));
    assert_eq!(ast.program, Program { source_elements: SourceElements { source_elements: vec![lowered_constructor()] } });
}

#[test]
fn test_methods_become_functions_with_this_as_first_parameter() {
    let method = ClassElement::Method(ClassMethodElement {
        span: at(300, 400),
        ident: Ident::from_string("grow".to_string(), at(300, 304)),
        params: FormalParameterList { parameters: vec![i32_param("by")] },
        returns: Some(i32_annotation()),
        body: body(
            at(310, 400),
            vec![SourceElement::Statement(StatementElement::Return(ReturnStatement {
                span: at(320, 330),
                expression: this_dot(at(327, 335), "capacity"),
            }))],
        ),
    });
    let mut ast = ast(vec![array_class_declaration(vec![method, field(at(500, 510), "len")])]);
    assert_eq!(desugar(&mut ast), Ok(()));

    let lowered_method = SourceElement::FunctionDeclaration(FunctionDeclarationElement {
        span: at(300, 400),
        decorators: FunctionDecorators { annotations: vec![], export: false },
        ident: Ident::from_string("Array#grow".to_string(), at(300, 304)),
        params: FormalParameterList {
            parameters: vec![
                FormalParameterArg {
                    ident: Ident::from_string("this".to_string(), Span::synthetic()),
                    type_annotation: array_reference(),
                },
                i32_param("by"),
            ],
        },
        returns: Some(i32_annotation()),
        body: body(
            at(310, 400),
            vec![SourceElement::Statement(StatementElement::Return(ReturnStatement {
                span: at(320, 330),
                expression: synthetic_call(at(327, 335), "i32Load", vec![address(4)], i32_type()),
            }))],
        ),
    });
    // One function for the constructor, one for the method, none for a field
    assert_eq!(ast.program.source_elements.source_elements, vec![lowered_constructor(), lowered_method]);
}

fn lower(expression: SingleExpression, class: Option<&str>) -> Result<SingleExpression, LoweringError> {
    let mut bindings = array_bindings();
    let mut symbols = SemanticSymbolTable::new();
    let mut lowering = AstLowering::new(&mut bindings, &mut symbols);
    lowering.binding_context = class.map(|class| class.to_string());
    lowering.visit_single_expression(&expression)
}

fn new_array(span: Span, arguments: Vec<SingleExpression>) -> SingleExpression {
    SingleExpression::New(NewExpression {
        span,
        expression: Box::new(SingleExpression::Arguments(ArgumentsExpression {
            span: at(4, 20),
            ident: Box::new(SingleExpression::Identifier(IdentifierExpression {
                span: at(4, 9),
                ident: Identifier::from_string("Array".to_string(), at(4, 9)),
                ty: array_class(),
            })),
            arguments: ArgumentsList { span: at(9, 20), arguments },
            ty: array_class(),
        })),
        ty: array_class(),
    })
}

#[test]
fn test_new_becomes_a_call_of_the_constructor() {
    let lowered = lower(new_array(at(0, 20), vec![integer(1), integer(2)]), None);
    assert_eq!(
        lowered,
        Ok(SingleExpression::Arguments(ArgumentsExpression {
            span: at(4, 20),
            ident: Box::new(SingleExpression::Identifier(IdentifierExpression {
                span: at(4, 9),
                ident: Identifier::from_string("Array#constructor".to_string(), at(4, 9)),
                ty: array_class(),
            })),
            arguments: ArgumentsList { span: at(9, 20), arguments: vec![integer(1), integer(2)] },
            ty: array_class(),
        }))
    );
}

#[test]
fn test_this_becomes_a_name() {
    assert_eq!(
        lower(this(at(3, 7)), Some("Array")),
        Ok(SingleExpression::Identifier(IdentifierExpression {
            span: at(3, 7),
            ident: Identifier::from_string("this".to_string(), at(3, 7)),
            ty: array_class(),
        }))
    );
}

#[test]
fn test_field_of_this_becomes_a_load() {
    assert_eq!(
        lower(this_dot(at(3, 11), "capacity"), Some("Array")),
        Ok(synthetic_call(at(3, 11), "i32Load", vec![address(4)], i32_type()))
    );
}

fn plus(left: SingleExpression, right: SingleExpression, ty: Type) -> SingleExpression {
    SingleExpression::Additive(binary(at(1, 6), left, BinaryOperator::Plus(at(3, 4)), right, ty))
}

#[test]
fn test_plus_and_minus_on_objects_become_calls() {
    let point = || Type::Object("Point".to_string());
    let lowered = lower(plus(name("a", point()), name("b", point()), point()), None);
    assert_eq!(
        lowered,
        Ok(synthetic_call(
            at(1, 6),
            "Point#add",
            vec![name("a", point()), name("b", point())],
            point()
        ))
    );

    let minus = SingleExpression::Additive(binary(
        at(1, 6),
        name("a", Type::Array(Box::new(i32_type()))),
        BinaryOperator::Minus(at(3, 4)),
        integer(1),
        Type::Array(Box::new(i32_type())),
    ));
    assert_eq!(
        lower(minus, None),
        Ok(synthetic_call(
            at(1, 6),
            "Array#sub",
            vec![name("a", Type::Array(Box::new(i32_type()))), integer(1)],
            Type::Array(Box::new(i32_type()))
        ))
    );
}

#[test]
fn test_operators_on_primitives_keep_their_shape() {
    let sum = || plus(integer(1), integer(2), i32_type());
    assert_eq!(lower(sum(), None), Ok(sum()));
    // Other operators are no methods, whatever the operands are
    let equal = || {
        SingleExpression::Equality(binary(
            zero(),
            name("a", Type::String),
            BinaryOperator::Equal(zero()),
            name("b", Type::String),
            Type::Primitive(PrimitiveType::Boolean),
        ))
    };
    assert_eq!(lower(equal(), None), Ok(equal()));
}

#[test]
fn test_binary_expression_keeps_its_kind() {
    let mut bindings = array_bindings();
    let mut symbols = SemanticSymbolTable::new();
    let lowering = AstLowering::new(&mut bindings, &mut symbols);
    let product = || binary(zero(), integer(2), BinaryOperator::Mult(zero()), integer(3), i32_type());
    assert_eq!(
        lowering.visit_binary_expression(&product(), BinaryKind::Multiplicative),
        Ok(SingleExpression::Multiplicative(product()))
    );
    assert_eq!(
        lowering.visit_binary_expression(&product(), BinaryKind::Bitwise),
        Ok(SingleExpression::Bitwise(product()))
    );
    assert_eq!(
        lowering.visit_binary_expression(&product(), BinaryKind::Relational),
        Ok(SingleExpression::Relational(product()))
    );
}

#[test]
fn test_nested_expressions_are_desugared() {
    let nested = SingleExpression::Unary(UnaryExpression {
        span: zero(),
        op: UnaryOperator::Minus(zero()),
        expr: Box::new(SingleExpression::MemberIndex(MemberIndexExpression {
            span: zero(),
            target: Box::new(SingleExpression::Literal(Literal::Array(ArrayLiteral {
                span: zero(),
                elements: vec![this_dot(at(1, 2), "len")],
            }))),
            index: Box::new(this_dot(at(3, 4), "capacity")),
            ty: i32_type(),
        })),
        ty: i32_type(),
    });
    let expected = SingleExpression::Unary(UnaryExpression {
        span: zero(),
        op: UnaryOperator::Minus(zero()),
        expr: Box::new(SingleExpression::MemberIndex(MemberIndexExpression {
            span: zero(),
            target: Box::new(SingleExpression::Literal(Literal::Array(ArrayLiteral {
                span: zero(),
                elements: vec![synthetic_call(at(1, 2), "i32Load", vec![address(0)], i32_type())],
            }))),
            index: Box::new(synthetic_call(at(3, 4), "i32Load", vec![address(4)], i32_type())),
            ty: i32_type(),
        })),
        ty: i32_type(),
    });
    assert_eq!(lower(nested, Some("Array")), Ok(expected));
}

#[test]
fn test_statements_keep_their_shape() {
    let source = |condition: SingleExpression| {
        StatementElement::If(IfStatement {
            span: at(1, 2),
            condition,
            consequence: Box::new(StatementElement::Block(BlockStatement {
                span: at(3, 4),
                statements: StatementList {
                    statements: vec![StatementElement::Iteration(IterationStatement::While(
                        WhileIterationElement {
                            span: at(5, 6),
                            expression: integer(1),
                            statement: Box::new(statement(at(7, 8), integer(2))),
                        },
                    ))],
                },
            })),
            alternative: Some(Box::new(statement(at(9, 10), integer(3)))),
        })
    };
    let mut bindings = array_bindings();
    let mut symbols = SemanticSymbolTable::new();
    let mut lowering = AstLowering::new(&mut bindings, &mut symbols);
    lowering.binding_context = Some("Array".to_string());
    assert_eq!(
        lowering.visit_statement_element(&source(this(at(11, 15)))),
        Ok(source(SingleExpression::Identifier(IdentifierExpression {
            span: at(11, 15),
            ident: Identifier::from_string("this".to_string(), at(11, 15)),
            ty: array_class(),
        })))
    );
}

#[test]
fn test_this_outside_a_class_is_an_error() {
    assert_eq!(
        lower(this(at(3, 7)), None),
        Err(LoweringError { kind: LoweringErrorKind::ThisOutsideClass, span: at(3, 7) })
    );
    let error = lower(this_dot(at(3, 11), "len"), None).unwrap_err();
    assert_eq!(error, LoweringError { kind: LoweringErrorKind::ThisOutsideClass, span: at(3, 11) });
    assert_eq!(error.description(), "this outside a class");
}

#[test]
fn test_class_without_layout_is_an_error() {
    let error = lower(this_dot(at(3, 11), "len"), Some("Point")).unwrap_err();
    assert_eq!(error.kind, LoweringErrorKind::UnknownClass);
    assert_eq!(error.description(), "class has no layout");

    let class = SourceElement::ClassDeclaration(ClassDeclarationElement {
        span: zero(),
        ident: Ident::from_string("Point".to_string(), zero()),
        body: ClassBody {
            span: zero(),
            class_elements: vec![ClassElement::Constructor(ClassConstructorElement {
                span: at(5, 9),
                params: FormalParameterList { parameters: vec![] },
                body: body(zero(), vec![]),
            })],
        },
    });
    let mut tree = ast(vec![class]);
    assert_eq!(
        desugar(&mut tree),
        Err(LoweringError { kind: LoweringErrorKind::UnknownClass, span: at(5, 9) })
    );
    // The tree is as it was
    assert!(matches!(
        tree.program.source_elements.source_elements[0],
        SourceElement::ClassDeclaration(_)
    ));
}

#[test]
fn test_field_that_the_class_does_not_have_is_an_error() {
    let error = lower(this_dot(at(3, 11), "size"), Some("Array")).unwrap_err();
    assert_eq!(error, LoweringError { kind: LoweringErrorKind::UnknownField, span: zero() });
    assert_eq!(error.description(), "class has no such field");
}

#[test]
fn test_member_access_must_be_a_field_of_this() {
    let on_a_name = SingleExpression::MemberDot(MemberDotExpression {
        span: at(3, 11),
        target: Box::new(name("point", Type::Object("Point".to_string()))),
        expression: Box::new(name("x", i32_type())),
        ty: i32_type(),
    });
    let error = lower(on_a_name, Some("Array")).unwrap_err();
    assert_eq!(error, LoweringError { kind: LoweringErrorKind::InvalidMemberAccess, span: at(3, 11) });
    assert_eq!(error.description(), "member access is not a field of this");

    let not_a_name = SingleExpression::MemberDot(MemberDotExpression {
        span: at(3, 11),
        target: Box::new(this(zero())),
        expression: Box::new(integer(1)),
        ty: i32_type(),
    });
    assert_eq!(lower(not_a_name, Some("Array")).unwrap_err().kind, LoweringErrorKind::InvalidMemberAccess);
}

#[test]
fn test_new_needs_the_call_of_a_name() {
    let new = SingleExpression::New(NewExpression {
        span: at(2, 9),
        expression: Box::new(integer(1)),
        ty: Type::Unknown,
    });
    let error = lower(new, None).unwrap_err();
    assert_eq!(error, LoweringError { kind: LoweringErrorKind::InvalidNewTarget, span: at(2, 9) });
    assert_eq!(error.description(), "new needs the call of a class");
}

fn has_sugar(expression: &SingleExpression) -> bool {
    match expression {
        SingleExpression::This(_) | SingleExpression::New(_) | SingleExpression::MemberDot(_) => true,
        SingleExpression::Unary(e) => has_sugar(&e.expr),
        SingleExpression::Assignment(e)
        | SingleExpression::Multiplicative(e)
        | SingleExpression::Bitwise(e)
        | SingleExpression::Additive(e)
        | SingleExpression::Equality(e)
        | SingleExpression::Relational(e) => has_sugar(&e.left) || has_sugar(&e.right),
        SingleExpression::MemberIndex(e) => has_sugar(&e.target) || has_sugar(&e.index),
        SingleExpression::Arguments(e) => {
            has_sugar(&e.ident) || e.arguments.arguments.iter().any(has_sugar)
        }
        SingleExpression::Identifier(_) => false,
        SingleExpression::Literal(Literal::Array(a)) => a.elements.iter().any(has_sugar),
        SingleExpression::Literal(_) => false,
    }
}

fn statement_has_sugar(statement: &StatementElement) -> bool {
    match statement {
        StatementElement::Block(b) => b.statements.statements.iter().any(statement_has_sugar),
        StatementElement::Empty(_) => false,
        StatementElement::If(i) => {
            has_sugar(&i.condition)
                || statement_has_sugar(&i.consequence)
                || i.alternative.as_ref().map_or(false, |a| statement_has_sugar(a))
        }
        StatementElement::Iteration(IterationStatement::While(w)) => {
            has_sugar(&w.expression) || statement_has_sugar(&w.statement)
        }
        StatementElement::Return(r) => has_sugar(&r.expression),
        StatementElement::Variable(v) => has_sugar(&v.expression),
        StatementElement::Expression(x) => has_sugar(&x.expression),
    }
}

fn element_has_sugar(element: &SourceElement) -> bool {
    match element {
        SourceElement::ClassDeclaration(_) => true,
        SourceElement::Statement(s) => statement_has_sugar(s),
        SourceElement::FunctionDeclaration(f) => {
            f.decorators.annotations.iter().any(|a| a.expr.as_ref().map_or(false, has_sugar))
                || f.body.source_elements.source_elements.iter().any(element_has_sugar)
        }
    }
}

#[test]
fn test_nothing_is_left_to_desugar() {
    let method = ClassElement::Method(ClassMethodElement {
        span: at(300, 400),
        ident: Ident::from_string("grow".to_string(), at(300, 304)),
        params: FormalParameterList { parameters: vec![] },
        returns: None,
        body: body(
            at(310, 400),
            vec![
                array_class_declaration(vec![]),
                element(zero(), assign(zero(), this_dot(zero(), "len"), new_array(zero(), vec![this(zero())]))),
            ],
        ),
    });
    let function = SourceElement::FunctionDeclaration(FunctionDeclarationElement {
        span: at(600, 700),
        decorators: FunctionDecorators {
            annotations: vec![Annotation {
                span: zero(),
                name: Ident::from_string("wast".to_string(), zero()),
                expr: Some(new_array(zero(), vec![])),
            }],
            export: true,
        },
        ident: Ident::from_string("main".to_string(), zero()),
        params: FormalParameterList { parameters: vec![] },
        returns: None,
        body: body(at(610, 700), vec![element(zero(), new_array(zero(), vec![integer(1)]))]),
    });
    let mut tree = ast(vec![array_class_declaration(vec![method]), function]);
    assert!(tree.program.source_elements.source_elements.iter().any(element_has_sugar));
    assert_eq!(desugar(&mut tree), Ok(()));
    let elements = &tree.program.source_elements.source_elements;
    // The constructor and the method of the outer class, the constructor of
    // the class inside the method, and the function
    assert_eq!(elements.len(), 3);
    assert!(!elements.iter().any(element_has_sugar));
}

#[test]
fn test_desugared_class_generates_code() {
    let mut tree = ast(vec![array_class_declaration(vec![])]);
    let mut bindings = array_bindings();
    let mut symbols = SemanticSymbolTable::new();
    // The scope of the constructor, as semantic analysis leaves it
    symbols.push_scope(span_of(CONSTRUCTOR), Some(array_class()));
    symbols.define("len".to_string(), i32_type());
    symbols.define("capacity".to_string(), i32_type());
    symbols.define("this".to_string(), array_class());
    symbols.pop_scope();
    {
        let mut lowering = AstLowering::new(&mut bindings, &mut symbols);
        lowering.desugar(&mut tree).unwrap();
    }
    let mut generator = CodeGenerator::new(symbols);
    let module = generator.generate_module(&tree).unwrap();

    let i32_const = |value| Box::new(Instruction::I32Const(value));
    let local = |value: &str| Box::new(Instruction::LocalGet(value.to_string()));
    let field_at = |offset| Box::new(Instruction::I32Add(local("this"), i32_const(offset)));
    assert_eq!(
        module.types,
        vec![FunctionType {
            params: vec![
                ("len".to_string(), ValueType::I32),
                ("capacity".to_string(), ValueType::I32)
            ],
            ret: Some(ValueType::I32),
        }]
    );
    assert_eq!(
        module.functions,
        vec![Function {
            name: "Array#constructor".to_string(),
            type_idx: 0,
            instructions: vec![
                Instruction::Local("this".to_string(), ValueType::I32),
                Instruction::Local("return".to_string(), ValueType::I32),
                Instruction::Block(
                    0,
                    vec![
                        Instruction::LocalSet(
                            "this".to_string(),
                            Box::new(Instruction::Call(
                                "objectNew".to_string(),
                                vec![Instruction::I32Const(8)]
                            ))
                        ),
                        Instruction::Call(
                            "i32Store".to_string(),
                            vec![*field_at(0), *local("len")]
                        ),
                        Instruction::Call(
                            "i32Store".to_string(),
                            vec![*field_at(4), *local("capacity")]
                        ),
                        Instruction::Return(local("this")),
                    ]
                ),
                Instruction::SynthReturn,
            ],
        }]
    );
}

#[test]
fn test_desugaring_what_is_desugared_changes_nothing() {
    let mut tree = ast(vec![array_class_declaration(vec![])]);
    assert_eq!(desugar(&mut tree), Ok(()));
    assert_eq!(tree.program.source_elements.source_elements, vec![lowered_constructor()]);
    // Nothing is left that could fail, and nothing that is rewritten
    assert_eq!(desugar(&mut tree), Ok(()));
    assert_eq!(tree.program.source_elements.source_elements, vec![lowered_constructor()]);
}

#[test]
fn test_plus_on_a_primitive_left_operand_under_another_type_becomes_a_call() {
    // The expression is not of a primitive type, its left operand is
    for ty in [
        Type::Object("Point".to_string()),
        Type::String,
        Type::Unknown,
        Type::Array(Box::new(i32_type())),
        Type::Void,
    ] {
        let method = format!("{}#add", ty.name());
        let lowered = lower(plus(integer(1), name("b", copy(&ty)), copy(&ty)), None);
        assert_eq!(
            lowered,
            Ok(synthetic_call(
                at(1, 6),
                &method,
                vec![integer(1), name("b", copy(&ty))],
                copy(&ty)
            ))
        );
    }
    let minus = SingleExpression::Additive(binary(
        at(1, 6),
        name("a", i32_type()),
        BinaryOperator::Minus(at(3, 4)),
        integer(2),
        Type::Unknown,
    ));
    assert_eq!(
        lower(minus, None),
        Ok(synthetic_call(
            at(1, 6),
            "unknown#sub",
            vec![name("a", i32_type()), integer(2)],
            Type::Unknown
        ))
    );
}

#[test]
fn test_plus_on_another_left_operand_under_a_primitive_type_becomes_a_call() {
    let lowered = lower(plus(name("a", Type::String), integer(1), i32_type()), None);
    assert_eq!(
        lowered,
        Ok(synthetic_call(at(1, 6), "i32#add", vec![name("a", Type::String), integer(1)], i32_type()))
    );
    let truth = Type::Primitive(PrimitiveType::Boolean);
    let lowered = lower(plus(name("a", Type::Unknown), integer(1), copy(&truth)), None);
    assert_eq!(
        lowered,
        Ok(synthetic_call(
            at(1, 6),
            "bool#add",
            vec![name("a", Type::Unknown), integer(1)],
            truth
        ))
    );
}

#[test]
fn test_operands_of_an_operator_that_becomes_a_call_are_desugared() {
    let point = || Type::Object("Point".to_string());
    let inner = || plus(name("a", point()), name("b", point()), point());
    let outer = plus(inner(), this_dot(at(8, 9), "len"), point());
    let call = |left, right| synthetic_call(at(1, 6), "Point#add", vec![left, right], point());
    assert_eq!(
        lower(outer, Some("Array")),
        Ok(call(
            call(name("a", point()), name("b", point())),
            synthetic_call(at(8, 9), "i32Load", vec![address(0)], i32_type())
        ))
    );
}
