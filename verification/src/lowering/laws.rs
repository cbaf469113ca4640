//! What holds of every tree that desugaring gives: nothing is left in it
//! that desugaring is there to remove.
use crate::ast::declaration::{
    AnnotationView, BodyView, ClassElementView, ConstructorView, FunctionDeclView, MethodView,
    SourceElementView,
};
use crate::ast::expression::{
    defined_type, ArgumentsView, BinaryView, ExprView, LiteralView, MemberDotView, NewView,
};
use crate::ast::statement::{IterationView, StatementView};
use crate::ident::IdentView;
use crate::lowering::model::{
    allocation_statement, binary_of, class_annotation, field_address, lower_annotations,
    lower_arguments, lower_assignment, lower_binary, lower_body, lower_class_elements,
    lower_constructor, lower_element, lower_elements, lower_expr, lower_exprs, lower_function,
    lower_member_dot, lower_method, lower_new, lower_plain_assignment, lower_program, lower_stmt,
    lower_stmts, lower_this, on_primitives, return_this_statement, synthetic_call,
    synthetic_identifier, this_parameter, BinaryKind, LowerCtx,
};
use crate::span::Span;
use crate::symbols::bindings::{offset_of_field, size_of_class};
use crate::types::{name_of_type, TypeView};
use vstd::prelude::*;

verus! {

/// The expression holds no `this`, no `new` and no member access, at any
/// depth.
pub open spec fn expr_lowered(e: ExprView) -> bool
    decreases e,
{
    match e {
        ExprView::Unary(u) => expr_lowered(*u.expr),
        ExprView::Assignment(b) => expr_lowered(*b.left) && expr_lowered(*b.right),
        ExprView::MemberIndex(m) => expr_lowered(*m.target) && expr_lowered(*m.index),
        ExprView::MemberDot(_) => false,
        ExprView::Arguments(a) => expr_lowered(*a.ident) && exprs_lowered(a.arguments.arguments),
        ExprView::Multiplicative(b) => expr_lowered(*b.left) && expr_lowered(*b.right),
        ExprView::Bitwise(b) => expr_lowered(*b.left) && expr_lowered(*b.right),
        ExprView::Additive(b) => expr_lowered(*b.left) && expr_lowered(*b.right),
        ExprView::Equality(b) => expr_lowered(*b.left) && expr_lowered(*b.right),
        ExprView::Relational(b) => expr_lowered(*b.left) && expr_lowered(*b.right),
        ExprView::Identifier(_) => true,
        ExprView::Literal(lit) => match lit {
            LiteralView::Array { elements, .. } => exprs_lowered(elements),
            _ => true,
        },
        ExprView::This(_) => false,
        ExprView::New(_) => false,
    }
}

/// Every expression of the list is desugared.
pub open spec fn exprs_lowered(list: Seq<ExprView>) -> bool
    decreases list,
{
    forall|i: int| 0 <= i < list.len() ==> expr_lowered(#[trigger] list[i])
}

/// Every expression of the statement is desugared.
pub open spec fn stmt_lowered(stmt: StatementView) -> bool
    decreases stmt,
{
    match stmt {
        StatementView::Block(block) => stmts_lowered(block.statements),
        StatementView::Empty(_) => true,
        StatementView::If(branch) => expr_lowered(branch.condition) && stmt_lowered(
            *branch.consequence,
        ) && match branch.alternative {
            Some(alternative) => stmt_lowered(*alternative),
            None => true,
        },
        StatementView::Iteration(IterationView::While(w)) => expr_lowered(w.expression)
            && stmt_lowered(*w.statement),
        StatementView::Return(ret) => expr_lowered(ret.expression),
        StatementView::Variable(v) => expr_lowered(v.expression),
        StatementView::Expression(x) => expr_lowered(x.expression),
    }
}

/// Every statement of the list is desugared.
pub open spec fn stmts_lowered(list: Seq<StatementView>) -> bool
    decreases list,
{
    forall|i: int| 0 <= i < list.len() ==> stmt_lowered(#[trigger] list[i])
}

/// The expression of every annotation of the list is desugared.
pub open spec fn annotations_lowered(list: Seq<AnnotationView>) -> bool {
    forall|i: int|
        0 <= i < list.len() ==> match (#[trigger] list[i]).expr {
            Some(expr) => expr_lowered(expr),
            None => true,
        }
}

/// The source element is no class, and nothing in it is left to desugar.
pub open spec fn element_lowered(element: SourceElementView) -> bool
    decreases element,
{
    match element {
        SourceElementView::FunctionDeclaration(f) => annotations_lowered(f.decorators.annotations)
            && elements_lowered(f.body.source_elements),
        SourceElementView::Statement(stmt) => stmt_lowered(stmt),
        SourceElementView::ClassDeclaration(_) => false,
    }
}

/// Every source element of the list is desugared.
pub open spec fn elements_lowered(list: Seq<SourceElementView>) -> bool
    decreases list,
{
    forall|i: int| 0 <= i < list.len() ==> element_lowered(#[trigger] list[i])
}

/// No class, no `this`, no `new` and no member access can be reached from
/// the root of the program.
pub open spec fn program_lowered(program: Seq<SourceElementView>) -> bool {
    elements_lowered(program)
}

proof fn lemma_synthetic_call(span: Span, callee: Seq<char>, arguments: Seq<ExprView>, ty: TypeView)
    requires
        exprs_lowered(arguments),
    ensures
        expr_lowered(synthetic_call(span, callee, arguments, ty)),
{
    assert(expr_lowered(synthetic_identifier(callee, ty)));
}

proof fn lemma_field_address(offset: i32)
    ensures
        expr_lowered(field_address(offset)),
{
    let address = field_address(offset);
    assert(expr_lowered(*address->Additive_0.left));
    assert(expr_lowered(*address->Additive_0.right));
}

proof fn lemma_lower_expr(ctx: LowerCtx, e: ExprView)
    ensures
        lower_expr(ctx, e) matches Ok(x) ==> expr_lowered(x),
    decreases e, 0nat,
{
    match e {
        ExprView::Unary(u) => {
            lemma_lower_expr(ctx, *u.expr);
        },
        ExprView::Assignment(b) => {
            lemma_lower_assignment(ctx, b);
        },
        ExprView::MemberIndex(m) => {
            lemma_lower_expr(ctx, *m.target);
            lemma_lower_expr(ctx, *m.index);
        },
        ExprView::MemberDot(m) => {
            if let Ok(x) = lower_member_dot(ctx, m) {
                let offset = crate::lowering::model::this_field_offset(ctx, m)->Ok_0;
                lemma_field_address(offset);
                lemma_synthetic_call(m.span, "i32Load"@, seq![field_address(offset)], m.ty);
            }
        },
        ExprView::Arguments(a) => {
            lemma_lower_arguments(ctx, a);
        },
        ExprView::Multiplicative(b) => {
            lemma_lower_binary(ctx, b, BinaryKind::Multiplicative);
        },
        ExprView::Bitwise(b) => {
            lemma_lower_binary(ctx, b, BinaryKind::Bitwise);
        },
        ExprView::Additive(b) => {
            lemma_lower_binary(ctx, b, BinaryKind::Additive);
        },
        ExprView::Equality(b) => {
            lemma_lower_binary(ctx, b, BinaryKind::Equality);
        },
        ExprView::Relational(b) => {
            lemma_lower_binary(ctx, b, BinaryKind::Relational);
        },
        ExprView::Identifier(_) => {},
        ExprView::Literal(lit) => {
            match lit {
                LiteralView::Array { span, elements } => {
                    lemma_lower_exprs(ctx, elements, 0, Seq::empty());
                },
                _ => {},
            }
        },
        ExprView::This(_) => {},
        ExprView::New(n) => {
            lemma_lower_new(ctx, n);
        },
    }
}

proof fn lemma_lower_exprs(ctx: LowerCtx, list: Seq<ExprView>, k: nat, acc: Seq<ExprView>)
    requires
        exprs_lowered(acc),
    ensures
        lower_exprs(ctx, list, k, acc) matches Ok(x) ==> exprs_lowered(x),
    decreases list, list.len() - k,
{
    if k < list.len() {
        lemma_lower_expr(ctx, list[k as int]);
        if let Ok(lowered) = lower_expr(ctx, list[k as int]) {
            lemma_lower_exprs(ctx, list, k + 1, acc.push(lowered));
        }
    }
}

proof fn lemma_lower_arguments(ctx: LowerCtx, a: ArgumentsView)
    ensures
        lower_arguments(ctx, a) matches Ok(x) ==> expr_lowered(ExprView::Arguments(x)),
    decreases a, 0nat,
{
    lemma_lower_expr(ctx, *a.ident);
    lemma_lower_exprs(ctx, a.arguments.arguments, 0, Seq::empty());
}

proof fn lemma_lower_new(ctx: LowerCtx, n: NewView)
    ensures
        lower_new(ctx, n) matches Ok(x) ==> expr_lowered(x),
    decreases n, 0nat,
{
    match *n.expression {
        ExprView::Arguments(a) => match *a.ident {
            ExprView::Identifier(class) => {
                lemma_lower_exprs(ctx, a.arguments.arguments, 0, Seq::empty());
                if let Ok(x) = lower_new(ctx, n) {
                    assert(expr_lowered(*x->Arguments_0.ident));
                }
            },
            _ => {},
        },
        _ => {},
    }
}

proof fn lemma_lower_assignment(ctx: LowerCtx, b: BinaryView)
    ensures
        lower_assignment(ctx, b) matches Ok(x) ==> expr_lowered(x),
    decreases b, 1nat,
{
    lemma_lower_plain_assignment(ctx, b);
    lemma_lower_expr(ctx, *b.right);
    if let ExprView::MemberDot(dot) = *b.left {
        if let ExprView::This(_) = *dot.target {
            if let Ok(x) = lower_assignment(ctx, b) {
                let offset = crate::lowering::model::this_field_offset(ctx, dot)->Ok_0;
                let value = lower_expr(ctx, *b.right)->Ok_0;
                lemma_field_address(offset);
                lemma_synthetic_call(b.span, "i32Store"@, seq![field_address(offset), value], b.ty);
            }
        }
    }
}

proof fn lemma_lower_plain_assignment(ctx: LowerCtx, b: BinaryView)
    ensures
        lower_plain_assignment(ctx, b) matches Ok(x) ==> expr_lowered(x),
    decreases b, 0nat,
{
    lemma_lower_expr(ctx, *b.left);
    lemma_lower_expr(ctx, *b.right);
}

proof fn lemma_lower_binary(ctx: LowerCtx, b: BinaryView, kind: BinaryKind)
    ensures
        lower_binary(ctx, b, kind) matches Ok(x) ==> expr_lowered(x),
    decreases b, 0nat,
{
    lemma_lower_expr(ctx, *b.left);
    lemma_lower_expr(ctx, *b.right);
    if let Ok(x) = lower_binary(ctx, b, kind) {
        let left = lower_expr(ctx, *b.left)->Ok_0;
        let right = lower_expr(ctx, *b.right)->Ok_0;
        match crate::lowering::model::overloaded(b) {
            Some(method) => {
                lemma_synthetic_call(
                    b.span,
                    crate::lowering::model::member_name(crate::types::name_of_type(b.ty), method),
                    seq![left, right],
                    b.ty,
                );
            },
            None => {},
        }
    }
}

proof fn lemma_lower_stmt(ctx: LowerCtx, stmt: StatementView)
    ensures
        lower_stmt(ctx, stmt) matches Ok(x) ==> stmt_lowered(x),
    decreases stmt, 0nat,
{
    match stmt {
        StatementView::Block(block) => {
            lemma_lower_stmts(ctx, block.statements, 0, Seq::empty());
        },
        StatementView::Empty(_) => {},
        StatementView::If(branch) => {
            lemma_lower_expr(ctx, branch.condition);
            lemma_lower_stmt(ctx, *branch.consequence);
            if let Some(alternative) = branch.alternative {
                lemma_lower_stmt(ctx, *alternative);
            }
        },
        StatementView::Iteration(IterationView::While(w)) => {
            lemma_lower_expr(ctx, w.expression);
            lemma_lower_stmt(ctx, *w.statement);
        },
        StatementView::Return(ret) => {
            lemma_lower_expr(ctx, ret.expression);
        },
        StatementView::Variable(v) => {
            lemma_lower_expr(ctx, v.expression);
        },
        StatementView::Expression(x) => {
            lemma_lower_expr(ctx, x.expression);
        },
    }
}

proof fn lemma_lower_stmts(ctx: LowerCtx, list: Seq<StatementView>, k: nat, acc: Seq<StatementView>)
    requires
        stmts_lowered(acc),
    ensures
        lower_stmts(ctx, list, k, acc) matches Ok(x) ==> stmts_lowered(x),
    decreases list, list.len() - k,
{
    if k < list.len() {
        lemma_lower_stmt(ctx, list[k as int]);
        if let Ok(lowered) = lower_stmt(ctx, list[k as int]) {
            lemma_lower_stmts(ctx, list, k + 1, acc.push(lowered));
        }
    }
}

proof fn lemma_lower_annotations(ctx: LowerCtx, list: Seq<AnnotationView>, k: nat, acc: Seq<AnnotationView>)
    requires
        annotations_lowered(acc),
    ensures
        lower_annotations(ctx, list, k, acc) matches Ok(x) ==> annotations_lowered(x),
    decreases list.len() - k,
{
    if k < list.len() {
        let annotation = list[k as int];
        match annotation.expr {
            None => {
                lemma_lower_annotations(ctx, list, k + 1, acc.push(annotation));
            },
            Some(expr) => {
                lemma_lower_expr(ctx, expr);
                if let Ok(lowered) = lower_expr(ctx, expr) {
                    lemma_lower_annotations(
                        ctx,
                        list,
                        k + 1,
                        acc.push(AnnotationView { expr: Some(lowered), ..annotation }),
                    );
                }
            },
        }
    }
}

proof fn lemma_lower_element(ctx: LowerCtx, element: SourceElementView)
    ensures
        lower_element(ctx, element) matches Ok(x) ==> elements_lowered(x),
    decreases element, 0nat,
{
    match element {
        SourceElementView::FunctionDeclaration(f) => {
            lemma_lower_function(ctx, f);
        },
        SourceElementView::Statement(stmt) => {
            lemma_lower_stmt(ctx, stmt);
        },
        SourceElementView::ClassDeclaration(class) => {
            lemma_lower_class_elements(
                LowerCtx { class: Some(class.ident.value), ..ctx },
                class.ident,
                class.body.class_elements,
                0,
                Seq::empty(),
            );
        },
    }
}

proof fn lemma_lower_elements(ctx: LowerCtx, list: Seq<SourceElementView>, k: nat, acc: Seq<SourceElementView>)
    requires
        elements_lowered(acc),
    ensures
        lower_elements(ctx, list, k, acc) matches Ok(x) ==> elements_lowered(x),
    decreases list, list.len() - k,
{
    if k < list.len() {
        lemma_lower_element(ctx, list[k as int]);
        if let Ok(lowered) = lower_element(ctx, list[k as int]) {
            lemma_lower_elements(ctx, list, k + 1, acc + lowered);
        }
    }
}

proof fn lemma_lower_body(ctx: LowerCtx, body: BodyView)
    ensures
        lower_body(ctx, body) matches Ok(x) ==> elements_lowered(x.source_elements),
    decreases body, 0nat,
{
    lemma_lower_elements(ctx, body.source_elements, 0, Seq::empty());
}

proof fn lemma_lower_function(ctx: LowerCtx, f: FunctionDeclView)
    ensures
        lower_function(ctx, f) matches Ok(x) ==> element_lowered(
            SourceElementView::FunctionDeclaration(x),
        ),
    decreases f, 0nat,
{
    lemma_lower_annotations(ctx, f.decorators.annotations, 0, Seq::empty());
    lemma_lower_body(ctx, f.body);
}

proof fn lemma_lower_class_elements(
    ctx: LowerCtx,
    class: IdentView,
    list: Seq<ClassElementView>,
    k: nat,
    acc: Seq<SourceElementView>,
)
    requires
        elements_lowered(acc),
    ensures
        lower_class_elements(ctx, class, list, k, acc) matches Ok(x) ==> elements_lowered(x),
    decreases list, list.len() - k,
{
    if k < list.len() {
        match list[k as int] {
            ClassElementView::Constructor(constructor) => {
                lemma_lower_constructor(ctx, class, constructor);
                if let Ok(f) = lower_constructor(ctx, class, constructor) {
                    lemma_lower_class_elements(
                        ctx,
                        class,
                        list,
                        k + 1,
                        acc.push(SourceElementView::FunctionDeclaration(f)),
                    );
                }
            },
            ClassElementView::Method(method) => {
                lemma_lower_method(ctx, class, method);
                if let Ok(f) = lower_method(ctx, class, method) {
                    lemma_lower_class_elements(
                        ctx,
                        class,
                        list,
                        k + 1,
                        acc.push(SourceElementView::FunctionDeclaration(f)),
                    );
                }
            },
            ClassElementView::Field(_) => {
                lemma_lower_class_elements(ctx, class, list, k + 1, acc);
            },
        }
    }
}

proof fn lemma_lower_constructor(ctx: LowerCtx, class: IdentView, constructor: ConstructorView)
    ensures
        lower_constructor(ctx, class, constructor) matches Ok(x) ==> element_lowered(
            SourceElementView::FunctionDeclaration(x),
        ),
    decreases constructor, 0nat,
{
    lemma_lower_body(ctx, constructor.body);
    if let Ok(x) = lower_constructor(ctx, class, constructor) {
        let size = crate::symbols::bindings::size_of_class(ctx.bindings, class.value)->Some_0;
        let body = lower_body(ctx, constructor.body)->Ok_0;
        let first = allocation_statement(class.value, size);
        let last = return_this_statement(class.value);
        let size_literal = ExprView::Literal(
            LiteralView::Integer { span: Span::synthetic_span(), value: size },
        );
        lemma_synthetic_call(
            Span::synthetic_span(),
            "objectNew"@,
            seq![size_literal],
            TypeView::Object(class.value),
        );
        assert(element_lowered(first));
        assert(element_lowered(last));
        let all = x.body.source_elements;
        assert forall|i: int| 0 <= i < all.len() implies element_lowered(#[trigger] all[i]) by {
            if i == 0 {
            } else if i < all.len() - 1 {
                assert(all[i] == body.source_elements[i - 1]);
            } else {
            }
        }
    }
}

proof fn lemma_lower_method(ctx: LowerCtx, class: IdentView, method: MethodView)
    ensures
        lower_method(ctx, class, method) matches Ok(x) ==> element_lowered(
            SourceElementView::FunctionDeclaration(x),
        ),
    decreases method, 0nat,
{
    lemma_lower_body(ctx, method.body);
}

proof fn lemma_total_expr(ctx: LowerCtx, e: ExprView)
    requires
        expr_lowered(e),
    ensures
        lower_expr(ctx, e) is Ok,
    decreases e, 0nat,
{
    match e {
        ExprView::Unary(u) => {
            lemma_total_expr(ctx, *u.expr);
        },
        ExprView::Assignment(b) => {
            lemma_total_expr(ctx, *b.left);
            lemma_total_expr(ctx, *b.right);
            assert(lower_plain_assignment(ctx, b) is Ok);
            assert(expr_lowered(*b.left));
            assert(lower_assignment(ctx, b) == lower_plain_assignment(ctx, b));
        },
        ExprView::MemberIndex(m) => {
            lemma_total_expr(ctx, *m.target);
            lemma_total_expr(ctx, *m.index);
        },
        ExprView::Arguments(a) => {
            lemma_total_expr(ctx, *a.ident);
            lemma_total_exprs(ctx, a.arguments.arguments, 0, Seq::empty());
            assert(lower_arguments(ctx, a) is Ok);
        },
        ExprView::Multiplicative(b) => {
            lemma_total_binary(ctx, b, BinaryKind::Multiplicative);
        },
        ExprView::Bitwise(b) => {
            lemma_total_binary(ctx, b, BinaryKind::Bitwise);
        },
        ExprView::Additive(b) => {
            lemma_total_binary(ctx, b, BinaryKind::Additive);
        },
        ExprView::Equality(b) => {
            lemma_total_binary(ctx, b, BinaryKind::Equality);
        },
        ExprView::Relational(b) => {
            lemma_total_binary(ctx, b, BinaryKind::Relational);
        },
        ExprView::Literal(lit) => {
            match lit {
                LiteralView::Array { span, elements } => {
                    lemma_total_exprs(ctx, elements, 0, Seq::empty());
                },
                _ => {},
            }
        },
        _ => {},
    }
}

proof fn lemma_total_binary(ctx: LowerCtx, b: BinaryView, kind: BinaryKind)
    requires
        expr_lowered(*b.left),
        expr_lowered(*b.right),
    ensures
        lower_binary(ctx, b, kind) is Ok,
    decreases b, 1nat,
{
    lemma_total_expr(ctx, *b.left);
    lemma_total_expr(ctx, *b.right);
}

proof fn lemma_total_exprs(ctx: LowerCtx, list: Seq<ExprView>, k: nat, acc: Seq<ExprView>)
    requires
        exprs_lowered(list),
    ensures
        lower_exprs(ctx, list, k, acc) is Ok,
    decreases list, list.len() - k,
{
    if k < list.len() {
        lemma_total_expr(ctx, list[k as int]);
        lemma_total_exprs(ctx, list, k + 1, acc.push(lower_expr(ctx, list[k as int])->Ok_0));
    }
}

proof fn lemma_total_stmt(ctx: LowerCtx, stmt: StatementView)
    requires
        stmt_lowered(stmt),
    ensures
        lower_stmt(ctx, stmt) is Ok,
    decreases stmt, 0nat,
{
    match stmt {
        StatementView::Block(block) => {
            lemma_total_stmts(ctx, block.statements, 0, Seq::empty());
        },
        StatementView::Empty(_) => {},
        StatementView::If(branch) => {
            lemma_total_expr(ctx, branch.condition);
            lemma_total_stmt(ctx, *branch.consequence);
            if let Some(alternative) = branch.alternative {
                lemma_total_stmt(ctx, *alternative);
            }
        },
        StatementView::Iteration(IterationView::While(w)) => {
            lemma_total_expr(ctx, w.expression);
            lemma_total_stmt(ctx, *w.statement);
        },
        StatementView::Return(ret) => {
            lemma_total_expr(ctx, ret.expression);
        },
        StatementView::Variable(v) => {
            lemma_total_expr(ctx, v.expression);
        },
        StatementView::Expression(x) => {
            lemma_total_expr(ctx, x.expression);
        },
    }
}

proof fn lemma_total_stmts(ctx: LowerCtx, list: Seq<StatementView>, k: nat, acc: Seq<StatementView>)
    requires
        stmts_lowered(list),
    ensures
        lower_stmts(ctx, list, k, acc) is Ok,
    decreases list, list.len() - k,
{
    if k < list.len() {
        lemma_total_stmt(ctx, list[k as int]);
        lemma_total_stmts(ctx, list, k + 1, acc.push(lower_stmt(ctx, list[k as int])->Ok_0));
    }
}

proof fn lemma_total_annotations(ctx: LowerCtx, list: Seq<AnnotationView>, k: nat, acc: Seq<AnnotationView>)
    requires
        annotations_lowered(list),
    ensures
        lower_annotations(ctx, list, k, acc) is Ok,
    decreases list.len() - k,
{
    if k < list.len() {
        let annotation = list[k as int];
        match annotation.expr {
            None => {
                lemma_total_annotations(ctx, list, k + 1, acc.push(annotation));
            },
            Some(expr) => {
                lemma_total_expr(ctx, expr);
                lemma_total_annotations(
                    ctx,
                    list,
                    k + 1,
                    acc.push(AnnotationView { expr: Some(lower_expr(ctx, expr)->Ok_0), ..annotation }),
                );
            },
        }
    }
}

proof fn lemma_total_element(ctx: LowerCtx, element: SourceElementView)
    requires
        element_lowered(element),
    ensures
        lower_element(ctx, element) is Ok,
    decreases element, 0nat,
{
    match element {
        SourceElementView::FunctionDeclaration(f) => {
            lemma_total_annotations(ctx, f.decorators.annotations, 0, Seq::empty());
            lemma_total_elements(ctx, f.body.source_elements, 0, Seq::empty());
            assert(lower_body(ctx, f.body) is Ok);
            assert(lower_function(ctx, f) is Ok);
        },
        SourceElementView::Statement(stmt) => {
            lemma_total_stmt(ctx, stmt);
        },
        SourceElementView::ClassDeclaration(_) => {},
    }
}

proof fn lemma_total_elements(ctx: LowerCtx, list: Seq<SourceElementView>, k: nat, acc: Seq<SourceElementView>)
    requires
        elements_lowered(list),
    ensures
        lower_elements(ctx, list, k, acc) is Ok,
    decreases list, list.len() - k,
{
    if k < list.len() {
        lemma_total_element(ctx, list[k as int]);
        lemma_total_elements(ctx, list, k + 1, acc + lower_element(ctx, list[k as int])->Ok_0);
    }
}

/// Desugaring can fail only on what it is there to remove: a program
/// without classes, `this`, `new` and member access is always desugared.
pub proof fn lemma_desugaring_succeeds(ctx: LowerCtx, program: Seq<SourceElementView>)
    requires
        program_lowered(program),
    ensures
        lower_program(ctx, program) is Ok,
{
    lemma_total_elements(ctx, program, 0, Seq::empty());
}

/// The type that an expression has after desugaring: its own; for `new`,
/// that of the call that `new` stands in front of.
pub open spec fn type_after(e: ExprView) -> TypeView {
    match e {
        ExprView::New(n) => match *n.expression {
            ExprView::Arguments(call) => call.ty,
            _ => n.ty,
        },
        _ => defined_type(e),
    }
}

/// Desugaring keeps the type of every expression that it rewrites: the
/// node that takes the place of an expression has the type that semantic
/// analysis gave to the expression.
pub proof fn lemma_type_is_kept(ctx: LowerCtx, e: ExprView)
    ensures
        lower_expr(ctx, e) matches Ok(x) ==> defined_type(x) == type_after(e),
{
    match e {
        ExprView::Assignment(b) => {
            assert(lower_plain_assignment(ctx, b) matches Ok(x) ==> defined_type(x) == b.ty);
            assert(lower_assignment(ctx, b) matches Ok(x) ==> defined_type(x) == b.ty);
        },
        ExprView::MemberDot(m) => {
            assert(lower_member_dot(ctx, m) matches Ok(x) ==> defined_type(x) == m.ty);
        },
        ExprView::Arguments(a) => {
            assert(lower_arguments(ctx, a) matches Ok(call) ==> call.ty == a.ty);
        },
        ExprView::This(t) => {
            assert(lower_this(ctx, t) matches Ok(x) ==> defined_type(x) == t.ty);
        },
        ExprView::New(n) => {
            assert(lower_new(ctx, n) matches Ok(x) ==> defined_type(x) == type_after(e));
        },
        ExprView::Multiplicative(b) => {
            assert(lower_binary(ctx, b, BinaryKind::Multiplicative) matches Ok(x) ==> defined_type(x)
                == b.ty);
        },
        ExprView::Bitwise(b) => {
            assert(lower_binary(ctx, b, BinaryKind::Bitwise) matches Ok(x) ==> defined_type(x)
                == b.ty);
        },
        ExprView::Additive(b) => {
            assert(lower_binary(ctx, b, BinaryKind::Additive) matches Ok(x) ==> defined_type(x)
                == b.ty);
        },
        ExprView::Equality(b) => {
            assert(lower_binary(ctx, b, BinaryKind::Equality) matches Ok(x) ==> defined_type(x)
                == b.ty);
        },
        ExprView::Relational(b) => {
            assert(lower_binary(ctx, b, BinaryKind::Relational) matches Ok(x) ==> defined_type(x)
                == b.ty);
        },
        _ => {},
    }
}

/// Where the type of the expression or that of its left operand is not
/// primitive, `+` becomes the call `T#add(l, r)` and `-` the call
/// `T#sub(l, r)`: `T` names the type of the expression, `l` and `r` are the
/// desugared operands in their order, and the call has the span and the
/// type of the expression. No binary node is left in its place.
pub proof fn lemma_operator_becomes_call(ctx: LowerCtx, b: BinaryView, kind: BinaryKind)
    requires
        b.op is Plus || b.op is Minus,
        !on_primitives(b),
    ensures
        lower_binary(ctx, b, kind) matches Ok(x) ==> {
            &&& lower_expr(ctx, *b.left) matches Ok(l)
            &&& lower_expr(ctx, *b.right) matches Ok(r)
            &&& x == synthetic_call(
                b.span,
                name_of_type(b.ty) + seq!['#'] + (if b.op is Plus {
                    "add"@
                } else {
                    "sub"@
                }),
                seq![l, r],
                b.ty,
            )
            &&& x matches ExprView::Arguments(call)
            &&& call.span == b.span
            &&& call.ty == b.ty
            &&& call.arguments.arguments == seq![l, r]
        },
{
}

/// Every other binary expression keeps its kind, its operator, its span
/// and its type, around the desugared operands.
pub proof fn lemma_operator_keeps_shape(ctx: LowerCtx, b: BinaryView, kind: BinaryKind)
    requires
        on_primitives(b) || !(b.op is Plus || b.op is Minus),
    ensures
        lower_binary(ctx, b, kind) matches Ok(x) ==> {
            &&& lower_expr(ctx, *b.left) matches Ok(l)
            &&& lower_expr(ctx, *b.right) matches Ok(r)
            &&& x == binary_of(kind, BinaryView { left: Box::new(l), right: Box::new(r), ..b })
        },
{
}

/// `this.f = v` becomes the call `i32Store(this + offset, v')`: `offset` is
/// the offset of the field `f` in the class in work, as the bindings give
/// it, and `v'` is the desugared value. No assignment to a member is left.
pub proof fn lemma_field_assignment(ctx: LowerCtx, b: BinaryView, dot: MemberDotView, field: IdentView)
    requires
        *b.left == ExprView::MemberDot(dot),
        *dot.target is This,
        *dot.expression matches ExprView::Identifier(name) && name.ident == field,
    ensures
        lower_assignment(ctx, b) matches Ok(x) ==> {
            &&& ctx.class matches Some(class)
            &&& offset_of_field(ctx.bindings, class, field.value) matches Some(offset)
            &&& lower_expr(ctx, *b.right) matches Ok(value)
            &&& x == synthetic_call(b.span, "i32Store"@, seq![field_address(offset), value], b.ty)
        },
{
}

/// `this.f` becomes the call `i32Load(this + offset)`, with the offset of
/// the field `f` in the class in work and with the type of the access.
pub proof fn lemma_field_access(ctx: LowerCtx, dot: MemberDotView, field: IdentView)
    requires
        *dot.target is This,
        *dot.expression matches ExprView::Identifier(name) && name.ident == field,
    ensures
        lower_member_dot(ctx, dot) matches Ok(x) ==> {
            &&& ctx.class matches Some(class)
            &&& offset_of_field(ctx.bindings, class, field.value) matches Some(offset)
            &&& x == synthetic_call(dot.span, "i32Load"@, seq![field_address(offset)], dot.ty)
        },
{
}

/// The function that a constructor becomes is named `C#constructor`, takes
/// the constructor's parameters and gives the class. Its body first binds
/// `this` to `objectNew(size)`, with the size of the class from the
/// bindings; then come the statements of the constructor, desugared, in
/// their order; then, last, the return of `this`.
pub proof fn lemma_constructor_shape(ctx: LowerCtx, class: IdentView, constructor: ConstructorView)
    ensures
        lower_constructor(ctx, class, constructor) matches Ok(f) ==> {
            &&& size_of_class(ctx.bindings, class.value) matches Some(size)
            &&& lower_body(ctx, constructor.body) matches Ok(body)
            &&& f.ident.value == class.value + seq!['#'] + "constructor"@
            &&& f.params == constructor.params
            &&& f.returns == Some(class_annotation(class))
            &&& f.body.source_elements.len() == body.source_elements.len() + 2
            &&& f.body.source_elements.first() == allocation_statement(class.value, size)
            &&& f.body.source_elements.last() == return_this_statement(class.value)
            &&& f.body.source_elements.subrange(1, f.body.source_elements.len() - 1)
                == body.source_elements
            &&& elements_lowered(f.body.source_elements)
        },
{
    lemma_lower_constructor(ctx, class, constructor);
    if let Ok(f) = lower_constructor(ctx, class, constructor) {
        let body = lower_body(ctx, constructor.body)->Ok_0;
        assert(f.body.source_elements.subrange(1, f.body.source_elements.len() - 1)
            =~= body.source_elements);
    }
}

/// The function that a method becomes is named `C#m`; its first parameter
/// is `this`, of the class, and the parameters of the method follow.
pub proof fn lemma_method_shape(ctx: LowerCtx, class: IdentView, method: MethodView)
    ensures
        lower_method(ctx, class, method) matches Ok(f) ==> {
            &&& lower_body(ctx, method.body) matches Ok(body)
            &&& f.ident.value == class.value + seq!['#'] + method.ident.value
            &&& f.params.len() == method.params.len() + 1
            &&& f.params.first() == this_parameter(class)
            &&& f.params.subrange(1, f.params.len() as int) == method.params
            &&& f.returns == method.returns
            &&& f.body == body
        },
{
    if let Ok(f) = lower_method(ctx, class, method) {
        assert(f.params.subrange(1, f.params.len() as int) =~= method.params);
    }
}

/// After desugaring, no class, no `this`, no `new` and no member access
/// can be reached from the root of the program.
pub proof fn lemma_desugared_program(ctx: LowerCtx, program: Seq<SourceElementView>)
    ensures
        lower_program(ctx, program) matches Ok(lowered) ==> program_lowered(lowered),
{
    lemma_lower_elements(ctx, program, 0, Seq::empty());
}

} // verus!
