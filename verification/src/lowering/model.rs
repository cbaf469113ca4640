//! What desugaring computes, as functions on views: from a node of the
//! tree to the node that takes its place.
use crate::ast::declaration::{
    AnnotationView, BodyView, ClassElementView, ClassView, ConstructorView, DecoratorsView,
    FunctionDeclView, MethodView, ParameterView, PrimaryTypeAnnotationView, SourceElementView,
    TypeAnnotationView,
};
use crate::ast::expression::{
    defined_type, ArgumentsListView, ArgumentsView, BinaryOperator, BinaryView, ExprView,
    IdentifierExprView, LiteralView, MemberDotView, MemberIndexView, NewView, ThisView, UnaryView,
};
use crate::ast::statement::{
    AssignableView, BlockView, ExpressionStatementView, IfView, IterationView, ReturnView,
    StatementView, VariableModifier, VariableView, WhileView,
};
use crate::ident::IdentView;
use crate::lowering::error::{LoweringError, LoweringErrorKind};
use crate::span::Span;
use crate::symbols::bindings::{offset_of_field, size_of_class, BindingsView};
use crate::types::{name_of_type, primitive_of, PrimitiveType, TypeView};
use vstd::prelude::*;

verus! {

/// What a rewrite depends on besides the node: the layout of the classes,
/// and the class that is being desugared, if one is.
pub struct LowerCtx {
    pub bindings: BindingsView,
    pub class: Option<Seq<char>>,
}

/// The failure of kind `kind` at `span`.
pub open spec fn reject<T>(kind: LoweringErrorKind, span: Span) -> Result<T, LoweringError> {
    Err(LoweringError::at(kind, span))
}

/// A name that desugaring invents, with the type `ty`.
pub open spec fn synthetic_identifier(name: Seq<char>, ty: TypeView) -> ExprView {
    ExprView::Identifier(
        IdentifierExprView {
            span: Span::synthetic_span(),
            ident: IdentView { span: Span::synthetic_span(), value: name },
            ty,
        },
    )
}

/// A call that desugaring invents: of the name `callee`, at `span`, with
/// the type `ty` for the call and the name alike.
pub open spec fn synthetic_call(span: Span, callee: Seq<char>, arguments: Seq<ExprView>, ty: TypeView) -> ExprView {
    ExprView::Arguments(
        ArgumentsView {
            span,
            ident: Box::new(synthetic_identifier(callee, ty)),
            arguments: ArgumentsListView { span: Span::synthetic_span(), arguments },
            ty,
        },
    )
}

/// The name of the function that a member of a class becomes.
pub open spec fn member_name(class: Seq<char>, member: Seq<char>) -> Seq<char> {
    class + seq!['#'] + member
}

/// The name of the function that a constructor becomes.
pub open spec fn constructor_name(class: Seq<char>) -> Seq<char> {
    member_name(class, "constructor"@)
}

/// The address of the field at `offset` of the instance that `this` points
/// to: `this + offset`, computed on `i32`.
pub open spec fn field_address(offset: i32) -> ExprView {
    ExprView::Additive(
        BinaryView {
            span: Span::synthetic_span(),
            left: Box::new(synthetic_identifier("this"@, TypeView::Primitive(PrimitiveType::I32))),
            op: BinaryOperator::Plus(Span::synthetic_span()),
            right: Box::new(
                ExprView::Literal(LiteralView::Integer { span: Span::synthetic_span(), value: offset }),
            ),
            ty: TypeView::Primitive(PrimitiveType::I32),
        },
    )
}

/// The offset of the field that `this.member` names: a class must be in
/// work, the member must be a name, and the class must have the field.
pub open spec fn this_field_offset(ctx: LowerCtx, dot: MemberDotView) -> Result<i32, LoweringError> {
    match ctx.class {
        None => reject(LoweringErrorKind::ThisOutsideClass, dot.span),
        Some(class) => match *dot.expression {
            ExprView::Identifier(field) => match offset_of_field(ctx.bindings, class, field.ident.value) {
                Some(offset) => Ok(offset),
                None => if size_of_class(ctx.bindings, class) is None {
                    reject(LoweringErrorKind::UnknownClass, field.span)
                } else {
                    reject(LoweringErrorKind::UnknownField, field.span)
                },
            },
            _ => reject(LoweringErrorKind::InvalidMemberAccess, dot.span),
        },
    }
}

/// The call that takes the place of an operator: `T#add(l, r)` for `+` and
/// `T#sub(l, r)` for `-`, where `T` names the type of the expression.
pub open spec fn operator_call(b: BinaryView, method: Seq<char>, left: ExprView, right: ExprView) -> ExprView {
    synthetic_call(b.span, member_name(name_of_type(b.ty), method), seq![left, right], b.ty)
}

/// The five kinds of binary expression that are no assignment.
pub enum BinaryKind {
    Multiplicative,
    Bitwise,
    Additive,
    Equality,
    Relational,
}

/// The binary expression of the kind `kind`.
pub open spec fn binary_of(kind: BinaryKind, b: BinaryView) -> ExprView {
    match kind {
        BinaryKind::Multiplicative => ExprView::Multiplicative(b),
        BinaryKind::Bitwise => ExprView::Bitwise(b),
        BinaryKind::Additive => ExprView::Additive(b),
        BinaryKind::Equality => ExprView::Equality(b),
        BinaryKind::Relational => ExprView::Relational(b),
    }
}

/// An expression after desugaring.
pub open spec fn lower_expr(ctx: LowerCtx, e: ExprView) -> Result<ExprView, LoweringError>
    decreases e, 0nat,
{
    match e {
        ExprView::Unary(u) => match lower_expr(ctx, *u.expr) {
            Err(e) => Err(e),
            Ok(expr) => Ok(ExprView::Unary(UnaryView { expr: Box::new(expr), ..u })),
        },
        ExprView::Assignment(b) => lower_assignment(ctx, b),
        ExprView::MemberIndex(m) => match lower_expr(ctx, *m.target) {
            Err(e) => Err(e),
            Ok(target) => match lower_expr(ctx, *m.index) {
                Err(e) => Err(e),
                Ok(index) => Ok(
                    ExprView::MemberIndex(
                        MemberIndexView { target: Box::new(target), index: Box::new(index), ..m },
                    ),
                ),
            },
        },
        ExprView::MemberDot(m) => lower_member_dot(ctx, m),
        ExprView::Arguments(a) => match lower_arguments(ctx, a) {
            Err(e) => Err(e),
            Ok(call) => Ok(ExprView::Arguments(call)),
        },
        ExprView::Multiplicative(b) => lower_binary(ctx, b, BinaryKind::Multiplicative),
        ExprView::Bitwise(b) => lower_binary(ctx, b, BinaryKind::Bitwise),
        ExprView::Additive(b) => lower_binary(ctx, b, BinaryKind::Additive),
        ExprView::Equality(b) => lower_binary(ctx, b, BinaryKind::Equality),
        ExprView::Relational(b) => lower_binary(ctx, b, BinaryKind::Relational),
        ExprView::Identifier(i) => Ok(ExprView::Identifier(i)),
        ExprView::Literal(lit) => match lit {
            LiteralView::Array { span, elements } => match lower_exprs(ctx, elements, 0, Seq::empty()) {
                Err(e) => Err(e),
                Ok(lowered) => Ok(ExprView::Literal(LiteralView::Array { span, elements: lowered })),
            },
            _ => Ok(ExprView::Literal(lit)),
        },
        ExprView::This(t) => lower_this(ctx, t),
        ExprView::New(n) => lower_new(ctx, n),
    }
}

/// The expressions `list[k..]` after desugaring, appended to `acc`.
pub open spec fn lower_exprs(ctx: LowerCtx, list: Seq<ExprView>, k: nat, acc: Seq<ExprView>) -> Result<
    Seq<ExprView>,
    LoweringError,
>
    decreases list, list.len() - k,
{
    if k >= list.len() {
        Ok(acc)
    } else {
        match lower_expr(ctx, list[k as int]) {
            Err(e) => Err(e),
            Ok(lowered) => lower_exprs(ctx, list, k + 1, acc.push(lowered)),
        }
    }
}

/// `this` becomes the name `this`, which every function made from a member
/// of a class defines. Outside a class it has no meaning.
pub open spec fn lower_this(ctx: LowerCtx, t: ThisView) -> Result<ExprView, LoweringError> {
    if ctx.class is Some {
        Ok(
            ExprView::Identifier(
                IdentifierExprView {
                    span: t.span,
                    ident: IdentView { span: t.span, value: "this"@ },
                    ty: t.ty,
                },
            ),
        )
    } else {
        reject(LoweringErrorKind::ThisOutsideClass, t.span)
    }
}

/// A call: the callee and the arguments are desugared.
pub open spec fn lower_arguments(ctx: LowerCtx, a: ArgumentsView) -> Result<
    ArgumentsView,
    LoweringError,
>
    decreases a, 0nat,
{
    match lower_expr(ctx, *a.ident) {
        Err(e) => Err(e),
        Ok(ident) => match lower_exprs(ctx, a.arguments.arguments, 0, Seq::empty()) {
            Err(e) => Err(e),
            Ok(arguments) => Ok(
                ArgumentsView {
                    ident: Box::new(ident),
                    arguments: ArgumentsListView { arguments, ..a.arguments },
                    ..a
                },
            ),
        },
    }
}

/// `new C(args)` becomes the call `C#constructor(args)`.
pub open spec fn lower_new(ctx: LowerCtx, n: NewView) -> Result<ExprView, LoweringError>
    decreases n, 0nat,
{
    match *n.expression {
        ExprView::Arguments(a) => match *a.ident {
            ExprView::Identifier(class) => match lower_exprs(
                ctx,
                a.arguments.arguments,
                0,
                Seq::empty(),
            ) {
                Err(e) => Err(e),
                Ok(arguments) => Ok(
                    ExprView::Arguments(
                        ArgumentsView {
                            ident: Box::new(
                                ExprView::Identifier(
                                    IdentifierExprView {
                                        ident: IdentView {
                                            value: constructor_name(class.ident.value),
                                            ..class.ident
                                        },
                                        ..class
                                    },
                                ),
                            ),
                            arguments: ArgumentsListView { arguments, ..a.arguments },
                            ..a
                        },
                    ),
                ),
            },
            _ => reject(LoweringErrorKind::InvalidNewTarget, n.span),
        },
        _ => reject(LoweringErrorKind::InvalidNewTarget, n.span),
    }
}

/// `this.f` becomes a load from the address of the field. No other member
/// access has a meaning here.
pub open spec fn lower_member_dot(ctx: LowerCtx, m: MemberDotView) -> Result<ExprView, LoweringError> {
    match *m.target {
        ExprView::This(_) => match this_field_offset(ctx, m) {
            Err(e) => Err(e),
            Ok(offset) => Ok(synthetic_call(m.span, "i32Load"@, seq![field_address(offset)], m.ty)),
        },
        _ => reject(LoweringErrorKind::InvalidMemberAccess, m.span),
    }
}

/// An assignment. `this.f = v` becomes a store of `v` at the address of the
/// field. Every other assignment keeps its shape.
pub open spec fn lower_assignment(ctx: LowerCtx, b: BinaryView) -> Result<ExprView, LoweringError>
    decreases b, 1nat,
{
    match *b.left {
        ExprView::MemberDot(dot) => match *dot.target {
            ExprView::This(_) => match this_field_offset(ctx, dot) {
                Err(e) => Err(e),
                Ok(offset) => match lower_expr(ctx, *b.right) {
                    Err(e) => Err(e),
                    Ok(value) => Ok(
                        synthetic_call(b.span, "i32Store"@, seq![field_address(offset), value], b.ty),
                    ),
                },
            },
            _ => lower_plain_assignment(ctx, b),
        },
        _ => lower_plain_assignment(ctx, b),
    }
}

/// An assignment that keeps its shape: both sides are desugared.
pub open spec fn lower_plain_assignment(ctx: LowerCtx, b: BinaryView) -> Result<
    ExprView,
    LoweringError,
>
    decreases b, 0nat,
{
    match lower_expr(ctx, *b.left) {
        Err(e) => Err(e),
        Ok(left) => match lower_expr(ctx, *b.right) {
            Err(e) => Err(e),
            Ok(right) => Ok(
                ExprView::Assignment(BinaryView { left: Box::new(left), right: Box::new(right), ..b }),
            ),
        },
    }
}

/// Whether `b` computes on primitive values alone: the expression and its
/// left operand are both of a primitive type.
pub open spec fn on_primitives(b: BinaryView) -> bool {
    primitive_of(b.ty) is Some && primitive_of(defined_type(*b.left)) is Some
}

/// The method that takes the place of the operator of `b`, if one does: the
/// operator is `+` or `-`, and the type of the expression or that of its
/// left operand is not primitive.
pub open spec fn overloaded(b: BinaryView) -> Option<Seq<char>> {
    if on_primitives(b) {
        None
    } else {
        match b.op {
            BinaryOperator::Plus(_) => Some("add"@),
            BinaryOperator::Minus(_) => Some("sub"@),
            _ => None,
        }
    }
}

/// A binary expression: both operands are desugared, the left one first.
/// Every operator but `+` and `-` keeps its shape. These two keep it only
/// where the expression and its left operand are both of a primitive type;
/// everywhere else they become a call, so that code generation sees them
/// on primitive values alone.
pub open spec fn lower_binary(ctx: LowerCtx, b: BinaryView, kind: BinaryKind) -> Result<
    ExprView,
    LoweringError,
>
    decreases b, 0nat,
{
    match lower_expr(ctx, *b.left) {
        Err(e) => Err(e),
        Ok(left) => match lower_expr(ctx, *b.right) {
            Err(e) => Err(e),
            Ok(right) => match overloaded(b) {
                Some(method) => Ok(operator_call(b, method, left, right)),
                None => Ok(
                    binary_of(kind, BinaryView { left: Box::new(left), right: Box::new(right), ..b }),
                ),
            },
        },
    }
}

/// A statement after desugaring: its shape stays, its expressions change.
pub open spec fn lower_stmt(ctx: LowerCtx, stmt: StatementView) -> Result<StatementView, LoweringError>
    decreases stmt, 0nat,
{
    match stmt {
        StatementView::Block(block) => match lower_stmts(ctx, block.statements, 0, Seq::empty()) {
            Err(e) => Err(e),
            Ok(statements) => Ok(StatementView::Block(BlockView { statements, ..block })),
        },
        StatementView::Empty(span) => Ok(StatementView::Empty(span)),
        StatementView::If(branch) => match lower_expr(ctx, branch.condition) {
            Err(e) => Err(e),
            Ok(condition) => match lower_stmt(ctx, *branch.consequence) {
                Err(e) => Err(e),
                Ok(consequence) => match branch.alternative {
                    None => Ok(
                        StatementView::If(
                            IfView {
                                condition,
                                consequence: Box::new(consequence),
                                alternative: None,
                                ..branch
                            },
                        ),
                    ),
                    Some(alternative) => match lower_stmt(ctx, *alternative) {
                        Err(e) => Err(e),
                        Ok(alternative) => Ok(
                            StatementView::If(
                                IfView {
                                    condition,
                                    consequence: Box::new(consequence),
                                    alternative: Some(Box::new(alternative)),
                                    ..branch
                                },
                            ),
                        ),
                    },
                },
            },
        },
        StatementView::Iteration(IterationView::While(w)) => match lower_expr(ctx, w.expression) {
            Err(e) => Err(e),
            Ok(expression) => match lower_stmt(ctx, *w.statement) {
                Err(e) => Err(e),
                Ok(statement) => Ok(
                    StatementView::Iteration(
                        IterationView::While(
                            WhileView { expression, statement: Box::new(statement), ..w },
                        ),
                    ),
                ),
            },
        },
        StatementView::Return(ret) => match lower_expr(ctx, ret.expression) {
            Err(e) => Err(e),
            Ok(expression) => Ok(StatementView::Return(ReturnView { expression, ..ret })),
        },
        StatementView::Variable(v) => match lower_expr(ctx, v.expression) {
            Err(e) => Err(e),
            Ok(expression) => Ok(StatementView::Variable(VariableView { expression, ..v })),
        },
        StatementView::Expression(x) => match lower_expr(ctx, x.expression) {
            Err(e) => Err(e),
            Ok(expression) => Ok(
                StatementView::Expression(ExpressionStatementView { expression, ..x }),
            ),
        },
    }
}

/// The statements `list[k..]` after desugaring, appended to `acc`.
pub open spec fn lower_stmts(ctx: LowerCtx, list: Seq<StatementView>, k: nat, acc: Seq<StatementView>) -> Result<
    Seq<StatementView>,
    LoweringError,
>
    decreases list, list.len() - k,
{
    if k >= list.len() {
        Ok(acc)
    } else {
        match lower_stmt(ctx, list[k as int]) {
            Err(e) => Err(e),
            Ok(lowered) => lower_stmts(ctx, list, k + 1, acc.push(lowered)),
        }
    }
}

/// The annotations `list[k..]` with their expressions desugared, appended
/// to `acc`.
pub open spec fn lower_annotations(
    ctx: LowerCtx,
    list: Seq<AnnotationView>,
    k: nat,
    acc: Seq<AnnotationView>,
) -> Result<Seq<AnnotationView>, LoweringError>
    decreases list.len() - k,
{
    if k >= list.len() {
        Ok(acc)
    } else {
        let annotation = list[k as int];
        match annotation.expr {
            None => lower_annotations(ctx, list, k + 1, acc.push(annotation)),
            Some(expr) => match lower_expr(ctx, expr) {
                Err(e) => Err(e),
                Ok(lowered) => lower_annotations(
                    ctx,
                    list,
                    k + 1,
                    acc.push(AnnotationView { expr: Some(lowered), ..annotation }),
                ),
            },
        }
    }
}

/// The type annotation that names a class.
pub open spec fn class_annotation(class: IdentView) -> TypeAnnotationView {
    TypeAnnotationView::Primary(PrimaryTypeAnnotationView::Reference(class))
}

/// The statement that opens a constructor: `this` is a new instance of
/// `size` bytes.
pub open spec fn allocation_statement(class: Seq<char>, size: i32) -> SourceElementView {
    SourceElementView::Statement(
        StatementView::Variable(
            VariableView {
                span: Span::synthetic_span(),
                modifier: VariableModifier::Let(Span::synthetic_span()),
                target: AssignableView::Identifier(
                    IdentView { span: Span::synthetic_span(), value: "this"@ },
                ),
                expression: synthetic_call(
                    Span::synthetic_span(),
                    "objectNew"@,
                    seq![
                        ExprView::Literal(
                            LiteralView::Integer { span: Span::synthetic_span(), value: size },
                        ),
                    ],
                    TypeView::Object(class),
                ),
            },
        ),
    )
}

/// The statement that closes a constructor: the instance is the result.
pub open spec fn return_this_statement(class: Seq<char>) -> SourceElementView {
    SourceElementView::Statement(
        StatementView::Return(
            ReturnView {
                span: Span::synthetic_span(),
                expression: synthetic_identifier("this"@, TypeView::Object(class)),
            },
        ),
    )
}

/// The parameter `this` of the function that a method becomes.
pub open spec fn this_parameter(class: IdentView) -> ParameterView {
    ParameterView {
        ident: IdentView { span: Span::synthetic_span(), value: "this"@ },
        type_annotation: class_annotation(class),
    }
}

/// No annotations, not exported.
pub open spec fn plain_decorators() -> DecoratorsView {
    DecoratorsView { annotations: Seq::empty(), export: false }
}

/// A source element after desugaring: a function and a statement stay one
/// element, a class becomes one function for each constructor and method.
pub open spec fn lower_element(ctx: LowerCtx, element: SourceElementView) -> Result<
    Seq<SourceElementView>,
    LoweringError,
>
    decreases element, 0nat,
{
    match element {
        SourceElementView::FunctionDeclaration(f) => match lower_function(ctx, f) {
            Err(e) => Err(e),
            Ok(lowered) => Ok(seq![SourceElementView::FunctionDeclaration(lowered)]),
        },
        SourceElementView::Statement(stmt) => match lower_stmt(ctx, stmt) {
            Err(e) => Err(e),
            Ok(lowered) => Ok(seq![SourceElementView::Statement(lowered)]),
        },
        SourceElementView::ClassDeclaration(class) => lower_class(ctx, class),
    }
}

/// The source elements `list[k..]` after desugaring, appended to `acc`.
pub open spec fn lower_elements(
    ctx: LowerCtx,
    list: Seq<SourceElementView>,
    k: nat,
    acc: Seq<SourceElementView>,
) -> Result<Seq<SourceElementView>, LoweringError>
    decreases list, list.len() - k,
{
    if k >= list.len() {
        Ok(acc)
    } else {
        match lower_element(ctx, list[k as int]) {
            Err(e) => Err(e),
            Ok(lowered) => lower_elements(ctx, list, k + 1, acc + lowered),
        }
    }
}

/// The body of a function after desugaring.
pub open spec fn lower_body(ctx: LowerCtx, body: BodyView) -> Result<BodyView, LoweringError>
    decreases body, 0nat,
{
    match lower_elements(ctx, body.source_elements, 0, Seq::empty()) {
        Err(e) => Err(e),
        Ok(source_elements) => Ok(BodyView { source_elements, ..body }),
    }
}

/// A function after desugaring: the expressions of its annotations and its
/// body change, the rest stays.
pub open spec fn lower_function(ctx: LowerCtx, f: FunctionDeclView) -> Result<
    FunctionDeclView,
    LoweringError,
>
    decreases f, 0nat,
{
    match lower_annotations(ctx, f.decorators.annotations, 0, Seq::empty()) {
        Err(e) => Err(e),
        Ok(annotations) => match lower_body(ctx, f.body) {
            Err(e) => Err(e),
            Ok(body) => Ok(
                FunctionDeclView {
                    decorators: DecoratorsView { annotations, ..f.decorators },
                    body,
                    ..f
                },
            ),
        },
    }
}

/// A class after desugaring: its members in order, each constructor and
/// each method as a function, with the class as the one in work.
pub open spec fn lower_class(ctx: LowerCtx, class: ClassView) -> Result<
    Seq<SourceElementView>,
    LoweringError,
>
    decreases class, 0nat,
{
    lower_class_elements(
        LowerCtx { class: Some(class.ident.value), ..ctx },
        class.ident,
        class.body.class_elements,
        0,
        Seq::empty(),
    )
}

/// The members `list[k..]` of the class `class`, appended to `acc`. A field
/// becomes nothing: it shows in the layout alone.
pub open spec fn lower_class_elements(
    ctx: LowerCtx,
    class: IdentView,
    list: Seq<ClassElementView>,
    k: nat,
    acc: Seq<SourceElementView>,
) -> Result<Seq<SourceElementView>, LoweringError>
    decreases list, list.len() - k,
{
    if k >= list.len() {
        Ok(acc)
    } else {
        match list[k as int] {
            ClassElementView::Constructor(constructor) => match lower_constructor(
                ctx,
                class,
                constructor,
            ) {
                Err(e) => Err(e),
                Ok(f) => lower_class_elements(
                    ctx,
                    class,
                    list,
                    k + 1,
                    acc.push(SourceElementView::FunctionDeclaration(f)),
                ),
            },
            ClassElementView::Method(method) => match lower_method(ctx, class, method) {
                Err(e) => Err(e),
                Ok(f) => lower_class_elements(
                    ctx,
                    class,
                    list,
                    k + 1,
                    acc.push(SourceElementView::FunctionDeclaration(f)),
                ),
            },
            ClassElementView::Field(_) => lower_class_elements(ctx, class, list, k + 1, acc),
        }
    }
}

/// The constructor of `class` becomes the function `class#constructor`
/// with the constructor's parameters and the class as its result. Its body
/// allocates the instance as `this`, runs the constructor's body, and
/// returns `this`.
pub open spec fn lower_constructor(ctx: LowerCtx, class: IdentView, constructor: ConstructorView) -> Result<
    FunctionDeclView,
    LoweringError,
>
    decreases constructor, 0nat,
{
    match size_of_class(ctx.bindings, class.value) {
        None => reject(LoweringErrorKind::UnknownClass, constructor.span),
        Some(size) => match lower_body(ctx, constructor.body) {
            Err(e) => Err(e),
            Ok(body) => Ok(
                FunctionDeclView {
                    span: constructor.span,
                    decorators: plain_decorators(),
                    ident: IdentView { span: class.span, value: constructor_name(class.value) },
                    params: constructor.params,
                    returns: Some(class_annotation(class)),
                    body: BodyView {
                        span: body.span,
                        source_elements: seq![allocation_statement(class.value, size)]
                            + body.source_elements + seq![return_this_statement(class.value)],
                    },
                },
            ),
        },
    }
}

/// The method `m` of `class` becomes the function `class#m`, with the
/// instance as its first parameter `this`.
pub open spec fn lower_method(ctx: LowerCtx, class: IdentView, method: MethodView) -> Result<
    FunctionDeclView,
    LoweringError,
>
    decreases method, 0nat,
{
    match lower_body(ctx, method.body) {
        Err(e) => Err(e),
        Ok(body) => Ok(
            FunctionDeclView {
                span: method.span,
                decorators: plain_decorators(),
                ident: IdentView {
                    span: method.ident.span,
                    value: member_name(class.value, method.ident.value),
                },
                params: seq![this_parameter(class)] + method.params,
                returns: method.returns,
                body,
            },
        ),
    }
}

/// A whole program after desugaring.
pub open spec fn lower_program(ctx: LowerCtx, program: Seq<SourceElementView>) -> Result<
    Seq<SourceElementView>,
    LoweringError,
> {
    lower_elements(ctx, program, 0, Seq::empty())
}

} // verus!
