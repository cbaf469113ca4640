//! What desugaring owes to code generation: in a desugared program nothing
//! is left that code generation refuses as not desugared.
use crate::ast::declaration::{AnnotationView, FunctionDeclView, ParameterView, SourceElementView};
use crate::ast::expression::{BinaryView, ExprView, LiteralView, MemberIndexView};
use crate::ast::statement::{IterationView, StatementView, VariableView};
use crate::codegen::error::CodegenErrorKind;
use crate::codegen::model::{
    array_allocation, array_store, enter_function, gen_annotations, gen_array_elements,
    gen_assignable, gen_assignment, gen_binary, gen_call, gen_element, gen_elements, gen_expr,
    gen_exprs, gen_function, gen_function_parts, gen_if, gen_literal, gen_loop, gen_member_index,
    gen_params, gen_program, gen_stmt, gen_stmts, gen_unary, gen_variable, gen_while, take_label,
    Gen, GenState, Inlined,
};
use crate::lowering::laws::{
    element_lowered, elements_lowered, expr_lowered, exprs_lowered, program_lowered, stmt_lowered,
    stmts_lowered,
};
use crate::wast::{InstructionView, ValueType};
use vstd::prelude::*;

verus! {

/// The step did not stop at something that is not desugared.
pub open spec fn accepted<T>(r: Gen<T>) -> bool {
    r matches Err(e) ==> e.kind != CodegenErrorKind::NotLowered
}

proof fn lemma_accepts_expr(s: GenState, e: ExprView)
    requires
        expr_lowered(e),
    ensures
        accepted(gen_expr(s, e)),
    decreases e, 0nat,
{
    match e {
        ExprView::Additive(b) => lemma_accepts_binary(s, b),
        ExprView::Multiplicative(b) => lemma_accepts_binary(s, b),
        ExprView::Equality(b) => lemma_accepts_binary(s, b),
        ExprView::Bitwise(b) => lemma_accepts_binary(s, b),
        ExprView::Relational(b) => lemma_accepts_binary(s, b),
        ExprView::Arguments(a) => {
            lemma_accepts_exprs(s, a.arguments.arguments, 0, Seq::empty());
            assert(accepted(gen_call(s, a)));
        },
        ExprView::Literal(lit) => lemma_accepts_literal(s, lit),
        ExprView::Assignment(b) => {
            lemma_accepts_expr(s, *b.right);
            if let Ok((s1, rhs)) = gen_expr(s, *b.right) {
                assert(expr_lowered(*b.left));
                if let ExprView::MemberIndex(m) = *b.left {
                    lemma_accepts_member_index(s1, m);
                }
            }
            assert(accepted(gen_assignment(s, b)));
        },
        ExprView::Unary(u) => {
            lemma_accepts_expr(s, *u.expr);
            assert(accepted(gen_unary(s, u)));
        },
        ExprView::MemberIndex(m) => lemma_accepts_member_index(s, m),
        _ => {},
    }
}

proof fn lemma_accepts_binary(s: GenState, b: BinaryView)
    requires
        expr_lowered(*b.left),
        expr_lowered(*b.right),
    ensures
        accepted(gen_binary(s, b)),
    decreases b, 1nat,
{
    lemma_accepts_expr(s, *b.left);
    if let Ok((s1, lhs)) = gen_expr(s, *b.left) {
        lemma_accepts_expr(s1, *b.right);
    }
}

proof fn lemma_accepts_member_index(s: GenState, m: MemberIndexView)
    requires
        expr_lowered(*m.target),
        expr_lowered(*m.index),
    ensures
        accepted(gen_member_index(s, m)),
    decreases m, 1nat,
{
    lemma_accepts_expr(s, *m.target);
    if let Ok((s1, container)) = gen_expr(s, *m.target) {
        lemma_accepts_expr(s1, *m.index);
    }
}

proof fn lemma_accepts_exprs(s: GenState, list: Seq<ExprView>, k: nat, acc: Seq<InstructionView>)
    requires
        exprs_lowered(list),
    ensures
        accepted(gen_exprs(s, list, k, acc)),
    decreases list, list.len() - k,
{
    if k < list.len() {
        lemma_accepts_expr(s, list[k as int]);
        if let Ok((next, i)) = gen_expr(s, list[k as int]) {
            lemma_accepts_exprs(next, list, k + 1, acc.push(i));
        }
    }
}

proof fn lemma_accepts_array_elements(
    s: GenState,
    elements: Seq<ExprView>,
    k: nat,
    acc: Seq<InstructionView>,
    pointer: Seq<char>,
)
    requires
        exprs_lowered(elements),
    ensures
        accepted(gen_array_elements(s, elements, k, acc, pointer)),
    decreases elements, elements.len() - k,
{
    if k < elements.len() {
        lemma_accepts_expr(s, elements[k as int]);
        if let Ok((next, value)) = gen_expr(s, elements[k as int]) {
            lemma_accepts_array_elements(
                next,
                elements,
                k + 1,
                acc.push(array_store(pointer, value)),
                pointer,
            );
        }
    }
}

proof fn lemma_accepts_literal(s: GenState, lit: LiteralView)
    requires
        expr_lowered(ExprView::Literal(lit)),
    ensures
        accepted(gen_literal(s, lit)),
    decreases lit, 1nat,
{
    match lit {
        LiteralView::Array { span, elements } => {
            if s.symbols.synthetic < usize::MAX {
                let pointer = crate::symbols::wast_table::synthetic_name(s.symbols.synthetic);
                let s1 = s.with_symbols(s.symbols.define_synthetic_local(ValueType::I32));
                lemma_accepts_array_elements(
                    s1,
                    elements,
                    0,
                    seq![array_allocation(pointer)],
                    pointer,
                );
            }
        },
        _ => {},
    }
}

proof fn lemma_accepts_variable(s: GenState, v: VariableView, in_scope: bool)
    requires
        expr_lowered(v.expression),
    ensures
        accepted(gen_variable(s, v, in_scope)),
{
    if let Ok((s1, target)) = gen_assignable(s, v.target) {
        lemma_accepts_expr(s1, v.expression);
    }
}

proof fn lemma_accepts_stmt(s: GenState, stmt: StatementView, in_scope: bool)
    requires
        stmt_lowered(stmt),
    ensures
        accepted(gen_stmt(s, stmt, in_scope)),
    decreases stmt, 2nat,
{
    match stmt {
        StatementView::Block(block) => {
            lemma_accepts_stmts(s, block.statements, 0, Seq::empty(), in_scope);
        },
        StatementView::Empty(_) => {},
        StatementView::Return(ret) => {
            lemma_accepts_expr(s, ret.expression);
        },
        StatementView::Variable(v) => {
            lemma_accepts_variable(s, v, in_scope);
        },
        StatementView::Expression(x) => {
            lemma_accepts_expr(s, x.expression);
        },
        StatementView::If(branch) => {
            lemma_accepts_expr(s, branch.condition);
            if let Ok((s1, condition)) = gen_expr(s, branch.condition) {
                lemma_accepts_stmt(s1, *branch.consequence, true);
                if let Ok((s2, consequence)) = gen_stmt(s1, *branch.consequence, true) {
                    if let Some(alternative) = branch.alternative {
                        lemma_accepts_stmt(s2, *alternative, true);
                    }
                }
            }
            assert(accepted(gen_if(s, branch, in_scope)));
        },
        StatementView::Iteration(IterationView::While(w)) => {
            if s.label_counter < usize::MAX {
                let s0 = take_label(s);
                lemma_accepts_expr(s0, w.expression);
                if let Ok((s1, condition)) = gen_expr(s0, w.expression) {
                    lemma_accepts_stmt(s1, *w.statement, true);
                }
                assert(accepted(gen_loop(s0, w, s.label_counter, in_scope)));
            }
            assert(accepted(gen_while(s, w, in_scope)));
        },
    }
}

proof fn lemma_accepts_stmts(
    s: GenState,
    list: Seq<StatementView>,
    k: nat,
    acc: Seq<InstructionView>,
    in_scope: bool,
)
    requires
        stmts_lowered(list),
    ensures
        accepted(gen_stmts(s, list, k, acc, in_scope)),
    decreases list, list.len() - k,
{
    if k < list.len() {
        lemma_accepts_stmt(s, list[k as int], in_scope);
        if let Ok((next, out)) = gen_stmt(s, list[k as int], in_scope) {
            lemma_accepts_stmts(next, list, k + 1, acc + out, in_scope);
        }
    }
}

proof fn lemma_accepts_params(
    s: GenState,
    params: Seq<ParameterView>,
    k: nat,
    acc: Seq<(Seq<char>, ValueType)>,
)
    ensures
        accepted(gen_params(s, params, k, acc)),
    decreases params.len() - k,
{
    if k < params.len() {
        let ident = params[k as int].ident;
        if let Some(ty) = s.semantic.lookup(ident.value) {
            lemma_accepts_params(
                s.with_symbols(
                    s.symbols.define(
                        ident.value,
                        crate::symbols::wast_table::WastSymbol::Param(
                            k as usize,
                            crate::wast::value_type_of(ty),
                        ),
                    ),
                ),
                params,
                k + 1,
                acc.push((ident.value, crate::wast::value_type_of(ty))),
            );
        }
    }
}

proof fn lemma_accepts_annotations(
    s: GenState,
    annotations: Seq<AnnotationView>,
    k: nat,
    acc: Inlined,
    function_name: Seq<char>,
    type_idx: nat,
)
    ensures
        accepted(gen_annotations(s, annotations, k, acc, function_name, type_idx)),
    decreases annotations.len() - k,
{
    if k < annotations.len() {
        let annotation = annotations[k as int];
        if annotation.name.value == "wast"@ {
            if let Some(text) = crate::codegen::model::annotation_text(annotation) {
                lemma_accepts_annotations(
                    s,
                    annotations,
                    k + 1,
                    Inlined {
                        instructions: acc.instructions.push(InstructionView::RawWast(text)),
                        has_inlined_body: true,
                        ..acc
                    },
                    function_name,
                    type_idx,
                );
            }
        } else if annotation.name.value == "native"@ {
            if let Some(module) = crate::codegen::model::annotation_text(annotation) {
                lemma_accepts_annotations(
                    s.push_import(
                        crate::wast::ImportView::Function(
                            crate::wast::FunctionImportView { name: function_name, type_idx, module },
                        ),
                    ),
                    annotations,
                    k + 1,
                    Inlined { has_inlined_body: true, is_predefined: true, ..acc },
                    function_name,
                    type_idx,
                );
            }
        } else {
            lemma_accepts_annotations(s, annotations, k + 1, acc, function_name, type_idx);
        }
    }
}

proof fn lemma_accepts_function(s: GenState, f: FunctionDeclView)
    requires
        element_lowered(SourceElementView::FunctionDeclaration(f)),
    ensures
        gen_function(s, f) matches Err(e) ==> e.kind != CodegenErrorKind::NotLowered,
    decreases f, 1nat,
{
    let entered = enter_function(s, f.span);
    lemma_accepts_params(entered, f.params, 0, Seq::empty());
    if let Ok((s1, params)) = gen_params(entered, f.params, 0, Seq::empty()) {
        let result = crate::codegen::model::function_result(s1.semantic, f.span);
        let (s2, type_idx) = s1.push_type(crate::wast::FunctionTypeView { params, ret: result });
        lemma_accepts_annotations(
            s2,
            f.decorators.annotations,
            0,
            Inlined::none(),
            f.ident.value,
            type_idx,
        );
        if let Ok((s3, inlined)) = gen_annotations(
            s2,
            f.decorators.annotations,
            0,
            Inlined::none(),
            f.ident.value,
            type_idx,
        ) {
            if !inlined.has_inlined_body {
                lemma_accepts_elements(s3, f.body.source_elements, 0, Seq::empty(), true);
            }
        }
    }
    assert(accepted(gen_function_parts(entered, f)));
}

proof fn lemma_accepts_element(s: GenState, element: SourceElementView, in_scope: bool)
    requires
        element_lowered(element),
    ensures
        accepted(gen_element(s, element, in_scope)),
    decreases element, 2nat,
{
    match element {
        SourceElementView::FunctionDeclaration(f) => {
            lemma_accepts_function(s, f);
        },
        SourceElementView::Statement(stmt) => {
            lemma_accepts_stmt(s, stmt, in_scope);
        },
        SourceElementView::ClassDeclaration(_) => {},
    }
}

proof fn lemma_accepts_elements(
    s: GenState,
    list: Seq<SourceElementView>,
    k: nat,
    acc: Seq<InstructionView>,
    in_scope: bool,
)
    requires
        elements_lowered(list),
    ensures
        accepted(gen_elements(s, list, k, acc, in_scope)),
    decreases list, list.len() - k,
{
    if k < list.len() {
        lemma_accepts_element(s, list[k as int], in_scope);
        if let Ok((next, out)) = gen_element(s, list[k as int], in_scope) {
            lemma_accepts_elements(next, list, k + 1, acc + out, in_scope);
        }
    }
}

/// Code generation never refuses a desugared program as not desugared:
/// what desugaring gives, code generation takes.
pub proof fn lemma_desugared_is_accepted(s: GenState, program: Seq<SourceElementView>, in_scope: bool)
    requires
        program_lowered(program),
    ensures
        gen_program(s, program, in_scope) matches Err(e) ==> e.kind
            != CodegenErrorKind::NotLowered,
{
    lemma_accepts_elements(s, program, 0, Seq::empty(), in_scope);
}

} // verus!
