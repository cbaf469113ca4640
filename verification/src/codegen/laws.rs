//! What holds of every run of the generator: the scopes that a step opens
//! it closes again, every loop of a function has a label of its own, and
//! the types of a module are the signatures of what the module declares.
use crate::ast::declaration::{AnnotationView, FunctionDeclView, ParameterView, SourceElementView};
use crate::ast::expression::{
    ArgumentsView, BinaryOperator, BinaryView, ExprView, LiteralView, MemberIndexView,
    UnaryOperator,
};
use crate::ast::statement::{IfView, IterationView, StatementView, VariableView, WhileView};
use crate::codegen::labels::{
    fresh, lemma_fresh_concat, lemma_fresh_empty, lemma_fresh_widen, lemma_labels_concat,
    lemma_labels_one, lemma_labels_push, lemma_labels_two, loop_labels, loop_labels_of,
};
use crate::codegen::model::{
    array_allocation, array_store, binary_instruction, commit_function, enter_function,
    finish_function, gen_annotations, gen_array_elements, gen_assignable, gen_assignment,
    gen_binary, gen_call, gen_element, gen_elements, gen_expr, gen_exprs, gen_function,
    gen_function_parts, gen_if, gen_literal, gen_loop, gen_member_index, gen_params, gen_program,
    gen_stmt, gen_stmts, gen_variable, gen_while, leave_function, local_declarations,
    loop_instruction, take_label, unary_instruction, wrap_body, FunctionParts, GenState, Inlined,
};
use crate::span::Span;
use crate::symbols::wast_table::{ScopeView, WastSymbol};
use crate::types::PrimitiveType;
use crate::wast::{
    FunctionTypeView, FunctionView, ImportView, InstructionView, ModuleView, ValueType,
};
use vstd::prelude::*;

verus! {

/// The index of the signature of an import.
pub open spec fn import_type(import: ImportView) -> nat {
    match import {
        ImportView::Function(f) => f.type_idx,
    }
}

/// Some function or import of the module has the signature with index `t`.
pub open spec fn type_used(m: ModuleView, t: nat) -> bool {
    ||| exists|j: int| 0 <= j < m.functions.len() && (#[trigger] m.functions[j]).type_idx == t
    ||| exists|j: int| 0 <= j < m.imports.len() && import_type(#[trigger] m.imports[j]) == t
}

/// Every function and import of the module names a signature that is
/// among the module's types.
pub open spec fn indices_valid(m: ModuleView) -> bool {
    &&& forall|j: int|
        0 <= j < m.functions.len() ==> (#[trigger] m.functions[j]).type_idx < m.types.len()
    &&& forall|j: int|
        0 <= j < m.imports.len() ==> import_type(#[trigger] m.imports[j]) < m.types.len()
}

/// The types of the module are the signatures of its functions and
/// imports: each of those has one of the types, and each type is the
/// signature of one of those.
pub open spec fn types_closed(m: ModuleView) -> bool {
    &&& indices_valid(m)
    &&& forall|t: nat| t < m.types.len() ==> type_used(m, t)
}

/// Every loop of the function has a label of its own.
pub open spec fn distinct_loop_labels(f: FunctionView) -> bool {
    loop_labels_of(f.instructions).no_duplicates()
}

/// What a step does to the module and the labels: labels are only taken,
/// never given back; types, functions and imports are only added; every
/// function that is added has loops with labels of their own, taken during
/// the step; every type that is added is the signature of a function or an
/// import; and what the functions and imports name stays among the types.
pub open spec fn module_grows(before: GenState, after: GenState) -> bool {
    &&& before.label_counter <= after.label_counter
    &&& before.module.types.is_prefix_of(after.module.types)
    &&& before.module.functions.is_prefix_of(after.module.functions)
    &&& before.module.imports.is_prefix_of(after.module.imports)
    &&& forall|i: int|
        before.module.functions.len() <= i < after.module.functions.len() ==> fresh(
            loop_labels_of((#[trigger] after.module.functions[i]).instructions),
            before.label_counter,
            after.label_counter,
        )
    &&& indices_valid(before.module) ==> indices_valid(after.module)
    &&& forall|t: nat|
        before.module.types.len() <= t < after.module.types.len() ==> type_used(after.module, t)
}

/// What a whole step does: the module grows, and as many scopes are open
/// in both tables as before.
pub open spec fn grows(before: GenState, after: GenState) -> bool {
    &&& module_grows(before, after)
    &&& after.symbols.depth() == before.symbols.depth()
    &&& after.semantic.depth() == before.semantic.depth()
}

/// What a step on an expression does: it may define names, and nothing
/// else changes.
pub open spec fn quiet(before: GenState, after: GenState) -> bool {
    &&& after.module == before.module
    &&& after.label_counter == before.label_counter
    &&& after.semantic == before.semantic
    &&& after.symbols.depth() == before.symbols.depth()
}

/// A step that only defines names grows the module by nothing.
pub proof fn lemma_quiet_grows(before: GenState, after: GenState)
    requires
        quiet(before, after),
    ensures
        grows(before, after),
{
}

/// A signature that is used stays used when functions and imports are
/// added.
pub proof fn lemma_type_used_later(before: ModuleView, after: ModuleView, t: nat)
    requires
        before.functions.is_prefix_of(after.functions),
        before.imports.is_prefix_of(after.imports),
        type_used(before, t),
    ensures
        type_used(after, t),
{
    if exists|j: int| 0 <= j < before.functions.len() && (#[trigger] before.functions[j]).type_idx == t {
        let j = choose|j: int|
            0 <= j < before.functions.len() && (#[trigger] before.functions[j]).type_idx == t;
        assert(after.functions[j] == before.functions[j]);
    } else {
        let j = choose|j: int|
            0 <= j < before.imports.len() && import_type(#[trigger] before.imports[j]) == t;
        assert(after.imports[j] == before.imports[j]);
    }
}

/// Two steps that grow the module grow it together.
pub proof fn lemma_module_grows_twice(a: GenState, b: GenState, c: GenState)
    requires
        module_grows(a, b),
        module_grows(b, c),
    ensures
        module_grows(a, c),
{
    assert forall|i: int| a.module.functions.len() <= i < c.module.functions.len() implies fresh(
        loop_labels_of((#[trigger] c.module.functions[i]).instructions),
        a.label_counter,
        c.label_counter,
    ) by {
        if i < b.module.functions.len() {
            assert(c.module.functions[i] == b.module.functions[i]);
            lemma_fresh_widen(
                loop_labels_of(b.module.functions[i].instructions),
                a.label_counter,
                b.label_counter,
                a.label_counter,
                c.label_counter,
            );
        } else {
            lemma_fresh_widen(
                loop_labels_of(c.module.functions[i].instructions),
                b.label_counter,
                c.label_counter,
                a.label_counter,
                c.label_counter,
            );
        }
    }
    assert forall|t: nat| a.module.types.len() <= t < c.module.types.len() implies type_used(
        c.module,
        t,
    ) by {
        if t < b.module.types.len() {
            lemma_type_used_later(b.module, c.module, t);
        }
    }
}

/// Two whole steps, one after the other, are a whole step.
pub proof fn lemma_grows_twice(a: GenState, b: GenState, c: GenState)
    requires
        grows(a, b),
        grows(b, c),
    ensures
        grows(a, c),
{
    lemma_module_grows_twice(a, b, c);
}

proof fn lemma_binary_labels(
    left: Option<PrimitiveType>,
    op: BinaryOperator,
    lhs: InstructionView,
    rhs: InstructionView,
    span: Span,
)
    requires
        loop_labels(lhs) == Seq::<nat>::empty(),
        loop_labels(rhs) == Seq::<nat>::empty(),
    ensures
        binary_instruction(left, op, lhs, rhs, span) matches Ok(i) ==> loop_labels(i) == Seq::<
            nat,
        >::empty(),
{
    assert(Seq::<nat>::empty() + Seq::<nat>::empty() =~= Seq::<nat>::empty());
}

proof fn lemma_unary_labels(op: UnaryOperator, operand: InstructionView, span: Span)
    requires
        loop_labels(operand) == Seq::<nat>::empty(),
    ensures
        unary_instruction(op, operand, span) matches Ok(i) ==> loop_labels(i) == Seq::<
            nat,
        >::empty(),
{
    assert(Seq::<nat>::empty() + Seq::<nat>::empty() =~= Seq::<nat>::empty());
    assert(loop_labels(InstructionView::I32Const(0i32)) == Seq::<nat>::empty());
    assert(loop_labels(InstructionView::I32Const(-1i32)) == Seq::<nat>::empty());
}

proof fn lemma_gen_expr(s: GenState, e: ExprView)
    requires
        s.symbols.depth() >= 1,
    ensures
        gen_expr(s, e) matches Ok((s2, i)) ==> quiet(s, s2) && loop_labels(i) == Seq::<
            nat,
        >::empty(),
    decreases e, 0nat,
{
    match e {
        ExprView::Additive(b) => lemma_gen_binary(s, b),
        ExprView::Multiplicative(b) => lemma_gen_binary(s, b),
        ExprView::Equality(b) => lemma_gen_binary(s, b),
        ExprView::Bitwise(b) => lemma_gen_binary(s, b),
        ExprView::Relational(b) => lemma_gen_binary(s, b),
        ExprView::Arguments(a) => lemma_gen_call(s, a),
        ExprView::Identifier(_) => {},
        ExprView::Literal(lit) => lemma_gen_literal(s, lit),
        ExprView::Assignment(b) => lemma_gen_assignment(s, b),
        ExprView::Unary(u) => {
            lemma_gen_expr(s, *u.expr);
            if let Ok((s1, operand)) = gen_expr(s, *u.expr) {
                lemma_unary_labels(u.op, operand, u.span);
            }
        },
        ExprView::MemberIndex(m) => lemma_gen_member_index(s, m),
        ExprView::MemberDot(_) => {},
        ExprView::This(_) => {},
        ExprView::New(_) => {},
    }
}

proof fn lemma_gen_exprs(s: GenState, list: Seq<ExprView>, k: nat, acc: Seq<InstructionView>)
    requires
        s.symbols.depth() >= 1,
        loop_labels_of(acc) == Seq::<nat>::empty(),
    ensures
        gen_exprs(s, list, k, acc) matches Ok((s2, out)) ==> quiet(s, s2) && loop_labels_of(out)
            == Seq::<nat>::empty(),
    decreases list, list.len() - k,
{
    if k < list.len() {
        lemma_gen_expr(s, list[k as int]);
        if let Ok((next, i)) = gen_expr(s, list[k as int]) {
            lemma_labels_push(acc, i);
            assert(loop_labels_of(acc) + loop_labels(i) =~= Seq::<nat>::empty());
            lemma_gen_exprs(next, list, k + 1, acc.push(i));
        }
    }
}

proof fn lemma_gen_binary(s: GenState, b: BinaryView)
    requires
        s.symbols.depth() >= 1,
    ensures
        gen_binary(s, b) matches Ok((s2, i)) ==> quiet(s, s2) && loop_labels(i) == Seq::<
            nat,
        >::empty(),
    decreases b, 0nat,
{
    lemma_gen_expr(s, *b.left);
    if let Ok((s1, lhs)) = gen_expr(s, *b.left) {
        lemma_gen_expr(s1, *b.right);
        if let Ok((s2, rhs)) = gen_expr(s1, *b.right) {
            lemma_binary_labels(
                crate::types::primitive_of(crate::ast::expression::defined_type(*b.left)),
                b.op,
                lhs,
                rhs,
                b.span,
            );
        }
    }
}

proof fn lemma_gen_call(s: GenState, a: ArgumentsView)
    requires
        s.symbols.depth() >= 1,
    ensures
        gen_call(s, a) matches Ok((s2, i)) ==> quiet(s, s2) && loop_labels(i) == Seq::<
            nat,
        >::empty(),
    decreases a, 0nat,
{
    lemma_gen_exprs(s, a.arguments.arguments, 0, Seq::empty());
}

proof fn lemma_gen_member_index(s: GenState, m: MemberIndexView)
    requires
        s.symbols.depth() >= 1,
    ensures
        gen_member_index(s, m) matches Ok((s2, i)) ==> quiet(s, s2) && loop_labels(i) == Seq::<
            nat,
        >::empty(),
    decreases m, 0nat,
{
    lemma_gen_expr(s, *m.target);
    if let Ok((s1, container)) = gen_expr(s, *m.target) {
        lemma_gen_expr(s1, *m.index);
        if let Ok((s2, index)) = gen_expr(s1, *m.index) {
            lemma_labels_two(container, index);
            assert(loop_labels(container) + loop_labels(index) =~= Seq::<nat>::empty());
        }
    }
}

proof fn lemma_gen_assignment(s: GenState, b: BinaryView)
    requires
        s.symbols.depth() >= 1,
    ensures
        gen_assignment(s, b) matches Ok((s2, i)) ==> quiet(s, s2) && loop_labels(i) == Seq::<
            nat,
        >::empty(),
    decreases b, 0nat,
{
    lemma_gen_expr(s, *b.right);
    if let Ok((s1, rhs)) = gen_expr(s, *b.right) {
        match *b.left {
            ExprView::Identifier(target) => {},
            ExprView::MemberIndex(m) => {
                lemma_gen_member_index(s1, m);
                assert(Seq::<nat>::empty() + Seq::<nat>::empty() =~= Seq::<nat>::empty());
            },
            _ => {},
        }
    }
}

proof fn lemma_array_store_labels(pointer: Seq<char>, value: InstructionView)
    requires
        loop_labels(value) == Seq::<nat>::empty(),
    ensures
        loop_labels(array_store(pointer, value)) == Seq::<nat>::empty(),
{
    let get = InstructionView::LocalGet(pointer);
    assert(loop_labels(get) == Seq::<nat>::empty());
    lemma_labels_one(get);
    let call = InstructionView::Call("arrayPush"@, seq![get]);
    assert(loop_labels(call) == loop_labels_of(seq![get]));
    assert(Seq::<nat>::empty() + Seq::<nat>::empty() =~= Seq::<nat>::empty());
    assert(loop_labels(array_store(pointer, value)) == loop_labels(call) + loop_labels(value));
}

proof fn lemma_array_allocation_labels(pointer: Seq<char>)
    ensures
        loop_labels_of(seq![array_allocation(pointer)]) == Seq::<nat>::empty(),
{
    let size = InstructionView::I32Const(crate::codegen::model::array_element_size());
    assert(loop_labels(size) == Seq::<nat>::empty());
    lemma_labels_one(size);
    let call = InstructionView::Call("arrayNew"@, seq![size]);
    assert(loop_labels(call) == loop_labels_of(seq![size]));
    assert(loop_labels(array_allocation(pointer)) == loop_labels(call));
    lemma_labels_one(array_allocation(pointer));
}

proof fn lemma_gen_array_elements(
    s: GenState,
    elements: Seq<ExprView>,
    k: nat,
    acc: Seq<InstructionView>,
    pointer: Seq<char>,
)
    requires
        s.symbols.depth() >= 1,
        loop_labels_of(acc) == Seq::<nat>::empty(),
    ensures
        gen_array_elements(s, elements, k, acc, pointer) matches Ok((s2, out)) ==> quiet(s, s2)
            && loop_labels_of(out) == Seq::<nat>::empty(),
    decreases elements, elements.len() - k,
{
    if k < elements.len() {
        lemma_gen_expr(s, elements[k as int]);
        if let Ok((next, value)) = gen_expr(s, elements[k as int]) {
            lemma_array_store_labels(pointer, value);
            lemma_labels_push(acc, array_store(pointer, value));
            assert(Seq::<nat>::empty() + Seq::<nat>::empty() =~= Seq::<nat>::empty());
            lemma_gen_array_elements(
                next,
                elements,
                k + 1,
                acc.push(array_store(pointer, value)),
                pointer,
            );
        }
    }
}

proof fn lemma_gen_literal(s: GenState, lit: LiteralView)
    requires
        s.symbols.depth() >= 1,
    ensures
        gen_literal(s, lit) matches Ok((s2, i)) ==> quiet(s, s2) && loop_labels(i) == Seq::<
            nat,
        >::empty(),
    decreases lit, 0nat,
{
    match lit {
        LiteralView::Array { span, elements } => {
            if s.symbols.synthetic < usize::MAX {
                let pointer = crate::symbols::wast_table::synthetic_name(s.symbols.synthetic);
                let s1 = s.with_symbols(s.symbols.define_synthetic_local(ValueType::I32));
                lemma_array_allocation_labels(pointer);
                lemma_gen_array_elements(s1, elements, 0, seq![array_allocation(pointer)], pointer);
                if let Ok((s2, stores)) = gen_array_elements(
                    s1,
                    elements,
                    0,
                    seq![array_allocation(pointer)],
                    pointer,
                ) {
                    lemma_labels_push(stores, InstructionView::LocalGet(pointer));
                    assert(Seq::<nat>::empty() + Seq::<nat>::empty() =~= Seq::<nat>::empty());
                }
            }
        },
        _ => {},
    }
}

proof fn lemma_gen_assignable(s: GenState, target: crate::ast::statement::AssignableView)
    requires
        s.symbols.depth() >= 1,
    ensures
        gen_assignable(s, target) matches Ok((s2, i)) ==> quiet(s, s2),
{
}

proof fn lemma_gen_variable(s: GenState, v: VariableView, in_scope: bool)
    requires
        s.symbols.depth() >= 1,
    ensures
        gen_variable(s, v, in_scope) matches Ok((s2, out)) ==> grows(s, s2) && loop_labels_of(out)
            == Seq::<nat>::empty(),
{
    lemma_gen_assignable(s, v.target);
    if let Ok((s1, target)) = gen_assignable(s, v.target) {
        lemma_gen_expr(s1, v.expression);
        if let Ok((s2, value)) = gen_expr(s1, v.expression) {
            match target {
                InstructionView::GlobalSet(name, _) => {},
                InstructionView::LocalSet(name, _) => {
                    let set = InstructionView::LocalSet(name, Box::new(value));
                    assert(loop_labels(set) == loop_labels(value));
                    lemma_labels_one(set);
                },
                _ => {
                    lemma_labels_one(value);
                },
            }
        }
    }
}

proof fn lemma_loop_labels(label: nat, condition: InstructionView, body: Seq<InstructionView>)
    requires
        loop_labels(condition) == Seq::<nat>::empty(),
    ensures
        loop_labels(loop_instruction(label, condition, body)) == seq![label] + loop_labels_of(body),
{
    let back = InstructionView::BrLoop(label);
    let guarded = InstructionView::If(Box::new(condition), body.push(back), Seq::empty());
    lemma_labels_push(body, back);
    assert(loop_labels(back) == Seq::<nat>::empty());
    assert(loop_labels_of(Seq::<InstructionView>::empty()) == Seq::<nat>::empty());
    assert(loop_labels(guarded) == loop_labels(condition) + loop_labels_of(body.push(back))
        + loop_labels_of(Seq::<InstructionView>::empty()));
    assert(loop_labels(guarded) =~= loop_labels_of(body));
    lemma_labels_one(guarded);
}

proof fn lemma_gen_stmt(s: GenState, stmt: StatementView, in_scope: bool)
    requires
        s.symbols.depth() >= 1,
    ensures
        gen_stmt(s, stmt, in_scope) matches Ok((s2, out)) ==> grows(s, s2) && fresh(
            loop_labels_of(out),
            s.label_counter,
            s2.label_counter,
        ),
    decreases stmt, 2nat,
{
    match stmt {
        StatementView::Block(block) => {
            assert(loop_labels_of(Seq::<InstructionView>::empty()) == Seq::<nat>::empty());
            lemma_gen_stmts(s, block.statements, 0, Seq::empty(), in_scope, s.label_counter);
        },
        StatementView::Empty(_) => {
            assert(loop_labels_of(Seq::<InstructionView>::empty()) == Seq::<nat>::empty());
        },
        StatementView::Return(ret) => {
            lemma_gen_expr(s, ret.expression);
            if let Ok((s1, value)) = gen_expr(s, ret.expression) {
                let i = InstructionView::Return(Box::new(value));
                assert(loop_labels(i) == loop_labels(value));
                lemma_labels_one(i);
            }
        },
        StatementView::Variable(v) => {
            lemma_gen_variable(s, v, in_scope);
        },
        StatementView::Expression(x) => {
            lemma_gen_expr(s, x.expression);
            if let Ok((s1, value)) = gen_expr(s, x.expression) {
                lemma_labels_one(value);
            }
        },
        StatementView::If(branch) => {
            lemma_gen_if(s, branch, in_scope);
        },
        StatementView::Iteration(IterationView::While(w)) => {
            lemma_gen_while(s, w, in_scope);
        },
    }
}

proof fn lemma_gen_if(s: GenState, branch: IfView, in_scope: bool)
    requires
        s.symbols.depth() >= 1,
    ensures
        gen_if(s, branch, in_scope) matches Ok((s2, out)) ==> grows(s, s2) && fresh(
            loop_labels_of(out),
            s.label_counter,
            s2.label_counter,
        ),
    decreases branch, 0nat,
{
    lemma_gen_expr(s, branch.condition);
    if let Ok((s1, condition)) = gen_expr(s, branch.condition) {
        lemma_quiet_grows(s, s1);
        lemma_gen_stmt(s1, *branch.consequence, true);
        if let Ok((s2, consequence)) = gen_stmt(s1, *branch.consequence, true) {
            lemma_grows_twice(s, s1, s2);
            let rest: Result<(GenState, Seq<InstructionView>), crate::codegen::error::CodegenError> =
                match branch.alternative {
                Some(alternative) => gen_stmt(s2, *alternative, true),
                None => Ok((s2, Seq::empty())),
            };
            match branch.alternative {
                Some(alternative) => {
                    lemma_gen_stmt(s2, *alternative, true);
                },
                None => {
                    assert(loop_labels_of(Seq::<InstructionView>::empty()) == Seq::<nat>::empty());
                },
            }
            if let Ok((s3, alternative)) = rest {
                lemma_grows_twice(s, s2, s3);
                let i = InstructionView::If(Box::new(condition), consequence, alternative);
                assert(loop_labels(i) =~= loop_labels_of(consequence) + loop_labels_of(alternative));
                lemma_fresh_concat(
                    loop_labels_of(consequence),
                    loop_labels_of(alternative),
                    s.label_counter,
                    s2.label_counter,
                    s3.label_counter,
                );
                lemma_labels_one(i);
            }
        }
    }
}

proof fn lemma_gen_while(s: GenState, w: WhileView, in_scope: bool)
    requires
        s.symbols.depth() >= 1,
    ensures
        gen_while(s, w, in_scope) matches Ok((s2, out)) ==> grows(s, s2) && fresh(
            loop_labels_of(out),
            s.label_counter,
            s2.label_counter,
        ),
    decreases w, 1nat,
{
    if s.label_counter < usize::MAX {
        let taken = take_label(s);
        lemma_gen_loop(taken, w, s.label_counter, in_scope);
        if let Ok((s2, out)) = gen_loop(taken, w, s.label_counter, in_scope) {
            assert(grows(s, taken));
            lemma_grows_twice(s, taken, s2);
        }
    }
}

proof fn lemma_gen_loop(s: GenState, w: WhileView, label: nat, in_scope: bool)
    requires
        s.symbols.depth() >= 1,
        label < s.label_counter,
    ensures
        gen_loop(s, w, label, in_scope) matches Ok((s2, out)) ==> grows(s, s2) && fresh(
            loop_labels_of(out),
            label,
            s2.label_counter,
        ),
    decreases w, 0nat,
{
    lemma_gen_expr(s, w.expression);
    if let Ok((s1, condition)) = gen_expr(s, w.expression) {
        lemma_quiet_grows(s, s1);
        lemma_gen_stmt(s1, *w.statement, true);
        if let Ok((s2, body)) = gen_stmt(s1, *w.statement, true) {
            lemma_grows_twice(s, s1, s2);
            let whole = loop_instruction(label, condition, body);
            lemma_loop_labels(label, condition, body);
            lemma_labels_one(whole);
            assert(fresh(seq![label], label, s.label_counter));
            lemma_fresh_concat(
                seq![label],
                loop_labels_of(body),
                label,
                s.label_counter,
                s2.label_counter,
            );
        }
    }
}

proof fn lemma_gen_stmts(
    s: GenState,
    list: Seq<StatementView>,
    k: nat,
    acc: Seq<InstructionView>,
    in_scope: bool,
    lo: nat,
)
    requires
        s.symbols.depth() >= 1,
        lo <= s.label_counter,
        fresh(loop_labels_of(acc), lo, s.label_counter),
    ensures
        gen_stmts(s, list, k, acc, in_scope) matches Ok((s2, out)) ==> grows(s, s2) && fresh(
            loop_labels_of(out),
            lo,
            s2.label_counter,
        ),
    decreases list, list.len() - k,
{
    if k < list.len() {
        lemma_gen_stmt(s, list[k as int], in_scope);
        if let Ok((next, out)) = gen_stmt(s, list[k as int], in_scope) {
            lemma_labels_concat(acc, out);
            lemma_fresh_concat(
                loop_labels_of(acc),
                loop_labels_of(out),
                lo,
                s.label_counter,
                next.label_counter,
            );
            lemma_gen_stmts(next, list, k + 1, acc + out, in_scope, lo);
            if let Ok((s2, all)) = gen_stmts(next, list, k + 1, acc + out, in_scope) {
                lemma_grows_twice(s, next, s2);
            }
        }
    }
}

proof fn lemma_gen_params(
    s: GenState,
    params: Seq<ParameterView>,
    k: nat,
    acc: Seq<(Seq<char>, ValueType)>,
)
    requires
        s.symbols.depth() >= 1,
    ensures
        gen_params(s, params, k, acc) matches Ok((s2, out)) ==> quiet(s, s2),
    decreases params.len() - k,
{
    if k < params.len() {
        let ident = params[k as int].ident;
        if let Some(ty) = s.semantic.lookup(ident.value) {
            lemma_gen_params(
                s.with_symbols(
                    s.symbols.define(
                        ident.value,
                        WastSymbol::Param(k as usize, crate::wast::value_type_of(ty)),
                    ),
                ),
                params,
                k + 1,
                acc.push((ident.value, crate::wast::value_type_of(ty))),
            );
        }
    }
}

/// Some import of the module has the signature with index `t`.
pub open spec fn import_used(m: ModuleView, t: nat) -> bool {
    exists|j: int| 0 <= j < m.imports.len() && import_type(#[trigger] m.imports[j]) == t
}

/// What reading annotations does: imports with the signature `t` are
/// added, and nothing else changes.
pub open spec fn annotated(before: GenState, after: GenState, t: nat) -> bool {
    &&& after.label_counter == before.label_counter
    &&& after.symbols == before.symbols
    &&& after.semantic == before.semantic
    &&& after.module.types == before.module.types
    &&& after.module.functions == before.module.functions
    &&& before.module.imports.is_prefix_of(after.module.imports)
    &&& forall|j: int|
        before.module.imports.len() <= j < after.module.imports.len() ==> import_type(
            #[trigger] after.module.imports[j],
        ) == t
}

proof fn lemma_gen_annotations(
    s: GenState,
    annotations: Seq<AnnotationView>,
    k: nat,
    acc: Inlined,
    function_name: Seq<char>,
    type_idx: nat,
)
    requires
        loop_labels_of(acc.instructions) == Seq::<nat>::empty(),
        acc.is_predefined ==> import_used(s.module, type_idx),
    ensures
        gen_annotations(s, annotations, k, acc, function_name, type_idx) matches Ok((s2, inlined))
            ==> {
            &&& annotated(s, s2, type_idx)
            &&& loop_labels_of(inlined.instructions) == Seq::<nat>::empty()
            &&& inlined.is_predefined ==> import_used(s2.module, type_idx)
        },
    decreases annotations.len() - k,
{
    if k < annotations.len() {
        let annotation = annotations[k as int];
        if annotation.name.value == "wast"@ {
            if let Some(text) = crate::codegen::model::annotation_text(annotation) {
                let raw = InstructionView::RawWast(text);
                lemma_labels_push(acc.instructions, raw);
                assert(Seq::<nat>::empty() + Seq::<nat>::empty() =~= Seq::<nat>::empty());
                lemma_gen_annotations(
                    s,
                    annotations,
                    k + 1,
                    Inlined {
                        instructions: acc.instructions.push(raw),
                        has_inlined_body: true,
                        ..acc
                    },
                    function_name,
                    type_idx,
                );
            }
        } else if annotation.name.value == "native"@ {
            if let Some(module) = crate::codegen::model::annotation_text(annotation) {
                let import = ImportView::Function(
                    crate::wast::FunctionImportView { name: function_name, type_idx, module },
                );
                let next = s.push_import(import);
                assert(next.module.imports[s.module.imports.len() as int] == import);
                assert(import_used(next.module, type_idx));
                let flags = Inlined { has_inlined_body: true, is_predefined: true, ..acc };
                lemma_gen_annotations(next, annotations, k + 1, flags, function_name, type_idx);
                if let Ok((s2, inlined)) = gen_annotations(
                    next,
                    annotations,
                    k + 1,
                    flags,
                    function_name,
                    type_idx,
                ) {
                    assert forall|j: int|
                        s.module.imports.len() <= j < s2.module.imports.len() implies import_type(
                        #[trigger] s2.module.imports[j],
                    ) == type_idx by {
                        if j == s.module.imports.len() {
                            assert(s2.module.imports[j] == next.module.imports[j]);
                        }
                    }
                }
            }
        } else {
            lemma_gen_annotations(s, annotations, k + 1, acc, function_name, type_idx);
        }
    }
}

proof fn lemma_local_declarations(scope: ScopeView, n: nat)
    ensures
        loop_labels_of(local_declarations(scope, n)) == Seq::<nat>::empty(),
    decreases n,
{
    if n == 0 || n > scope.len() {
        assert(loop_labels_of(Seq::<InstructionView>::empty()) == Seq::<nat>::empty());
    } else {
        lemma_local_declarations(scope, (n - 1) as nat);
        match scope[n - 1].1 {
            WastSymbol::Local(ty) => {
                let declaration = InstructionView::Local(scope[n - 1].0, ty);
                lemma_labels_push(local_declarations(scope, (n - 1) as nat), declaration);
                assert(Seq::<nat>::empty() + Seq::<nat>::empty() =~= Seq::<nat>::empty());
            },
            _ => {},
        }
    }
}

/// What the first part of a function leaves behind, seen from the state in
/// which the function's scope was entered.
pub open spec fn parts_settled(before: GenState, after: GenState, parts: FunctionParts) -> bool {
    &&& before.label_counter <= after.label_counter
    &&& after.symbols.depth() == before.symbols.depth()
    &&& after.semantic.depth() == before.semantic.depth()
    &&& before.module.types.is_prefix_of(after.module.types)
    &&& before.module.functions.is_prefix_of(after.module.functions)
    &&& before.module.imports.is_prefix_of(after.module.imports)
    &&& forall|i: int|
        before.module.functions.len() <= i < after.module.functions.len() ==> fresh(
            loop_labels_of((#[trigger] after.module.functions[i]).instructions),
            before.label_counter,
            after.label_counter,
        )
    &&& indices_valid(before.module) ==> indices_valid(after.module)
    &&& parts.type_idx < after.module.types.len()
    &&& forall|t: nat|
        before.module.types.len() <= t < after.module.types.len() ==> t == parts.type_idx
            || type_used(after.module, t)
    &&& parts.is_predefined ==> type_used(after.module, parts.type_idx)
    &&& fresh(loop_labels_of(parts.frame), before.label_counter, after.label_counter)
}

proof fn lemma_push_type(s: GenState, ty: FunctionTypeView)
    ensures
        ({
            let (next, t) = s.push_type(ty);
            &&& t < next.module.types.len()
            &&& s.module.types.is_prefix_of(next.module.types)
            &&& next.module.types.len() <= s.module.types.len() + 1
            &&& next.module.types.len() > s.module.types.len() ==> t == s.module.types.len()
            &&& next.module.functions == s.module.functions
            &&& next.module.imports == s.module.imports
            &&& next.label_counter == s.label_counter
            &&& next.symbols == s.symbols
            &&& next.semantic == s.semantic
        }),
{
    crate::codegen::generator::lemma_type_from(s.module.types, ty, 0);
}

proof fn lemma_gen_function_parts(s: GenState, f: FunctionDeclView)
    requires
        s.symbols.depth() >= 1,
    ensures
        gen_function_parts(s, f) matches Ok((s2, parts)) ==> parts_settled(s, s2, parts),
    decreases f, 0nat,
{
    lemma_gen_params(s, f.params, 0, Seq::empty());
    if let Ok((s1, params)) = gen_params(s, f.params, 0, Seq::empty()) {
        let result = crate::codegen::model::function_result(s1.semantic, f.span);
        let ty = FunctionTypeView { params, ret: result };
        let (s2, type_idx) = s1.push_type(ty);
        lemma_push_type(s1, ty);
        assert(loop_labels_of(Seq::<InstructionView>::empty()) == Seq::<nat>::empty());
        lemma_gen_annotations(
            s2,
            f.decorators.annotations,
            0,
            Inlined::none(),
            f.ident.value,
            type_idx,
        );
        if let Ok((s3, inlined)) = gen_annotations(
            s2,
            f.decorators.annotations,
            0,
            Inlined::none(),
            f.ident.value,
            type_idx,
        ) {
            lemma_fresh_empty(s.label_counter, s3.label_counter);
            assert(indices_valid(s.module) ==> indices_valid(s3.module)) by {
                if indices_valid(s.module) {
                    assert forall|j: int| 0 <= j < s3.module.imports.len() implies import_type(
                        #[trigger] s3.module.imports[j],
                    ) < s3.module.types.len() by {
                        if j < s.module.imports.len() {
                            assert(s3.module.imports[j] == s.module.imports[j]);
                        }
                    }
                }
            }
            if inlined.has_inlined_body {
                assert(parts_settled(s, s3, gen_function_parts(s, f)->Ok_0.1));
            } else {
                lemma_gen_elements(
                    s3,
                    f.body.source_elements,
                    0,
                    Seq::empty(),
                    true,
                    s3.label_counter,
                );
                if let Ok((s4, emitted)) = gen_elements(
                    s3,
                    f.body.source_elements,
                    0,
                    Seq::empty(),
                    true,
                ) {
                    let parts = gen_function_parts(s, f)->Ok_0.1;
                    lemma_labels_concat(inlined.instructions, emitted);
                    assert(loop_labels_of(parts.frame) =~= loop_labels_of(emitted));
                    assert forall|t: nat|
                        s.module.types.len() <= t < s4.module.types.len() implies t
                        == parts.type_idx || type_used(s4.module, t) by {
                        if t < s3.module.types.len() {
                        }
                    }
                    if parts.is_predefined {
                        lemma_type_used_later(s3.module, s4.module, type_idx);
                    }
                    assert forall|i: int|
                        s.module.functions.len() <= i < s4.module.functions.len() implies fresh(
                        loop_labels_of((#[trigger] s4.module.functions[i]).instructions),
                        s.label_counter,
                        s4.label_counter,
                    ) by {
                        assert(s3.module.functions.len() <= i);
                    }
                    assert(parts_settled(s, s4, parts));
                }
            }
        }
    }
}

proof fn lemma_finish_function(before: GenState, s: GenState, f: FunctionDeclView, parts: FunctionParts)
    requires
        s.symbols.depth() >= 1,
        parts_settled(before, s, parts),
    ensures
        module_grows(before, finish_function(s, f, parts)),
        finish_function(s, f, parts).symbols.depth() == s.symbols.depth(),
        finish_function(s, f, parts).semantic == s.semantic,
{
    let (s1, instructions) = wrap_body(s, parts);
    let block = InstructionView::Block(0, parts.frame);
    assert(loop_labels(block) == loop_labels_of(parts.frame));
    assert(loop_labels(InstructionView::SynthReturn) == Seq::<nat>::empty());
    lemma_labels_one(block);
    lemma_labels_two(block, InstructionView::SynthReturn);
    assert(loop_labels_of(parts.frame) + Seq::<nat>::empty() =~= loop_labels_of(parts.frame));
    assert(loop_labels_of(instructions) == loop_labels_of(parts.frame));
    let scope = s1.symbols.current();
    let locals = local_declarations(scope, scope.len());
    lemma_local_declarations(scope, scope.len());
    lemma_labels_concat(locals, instructions);
    let all = locals + instructions;
    assert(loop_labels_of(all) =~= loop_labels_of(parts.frame));
    let done = finish_function(s, f, parts);
    assert(done == commit_function(s1, f, parts.type_idx, parts.is_predefined, all));
    if parts.is_predefined {
        assert(done == s1);
    } else {
        let function = FunctionView { name: f.ident.value, type_idx: parts.type_idx, instructions: all };
        let at = s.module.functions.len() as int;
        assert(done.module.functions == s.module.functions.push(function));
        assert(done.module.functions[at] == function);
        assert(type_used(done.module, parts.type_idx));
        assert forall|i: int|
            before.module.functions.len() <= i < done.module.functions.len() implies fresh(
            loop_labels_of((#[trigger] done.module.functions[i]).instructions),
            before.label_counter,
            done.label_counter,
        ) by {
            if i < at {
                assert(done.module.functions[i] == s.module.functions[i]);
            }
        }
        assert(indices_valid(before.module) ==> indices_valid(done.module)) by {
            if indices_valid(before.module) {
                assert forall|j: int|
                    0 <= j < done.module.functions.len() implies (
                #[trigger] done.module.functions[j]).type_idx < done.module.types.len() by {
                    if j < at {
                        assert(done.module.functions[j] == s.module.functions[j]);
                    }
                }
            }
        }
    }
    assert forall|t: nat|
        before.module.types.len() <= t < done.module.types.len() implies type_used(
        done.module,
        t,
    ) by {
        if t != parts.type_idx || parts.is_predefined {
            lemma_type_used_later(s.module, done.module, t);
        }
    }
}

proof fn lemma_gen_function(s: GenState, f: FunctionDeclView)
    requires
        s.symbols.depth() >= 1,
    ensures
        gen_function(s, f) matches Ok(s2) ==> grows(s, s2),
    decreases f, 1nat,
{
    let entered = enter_function(s, f.span);
    lemma_gen_function_parts(entered, f);
    if let Ok((s1, parts)) = gen_function_parts(entered, f) {
        lemma_finish_function(entered, s1, f, parts);
        let done = finish_function(s1, f, parts);
        let left = leave_function(done);
        assert(left.module == done.module);
        assert(module_grows(s, left));
    }
}

proof fn lemma_gen_element(s: GenState, element: SourceElementView, in_scope: bool)
    requires
        s.symbols.depth() >= 1,
    ensures
        gen_element(s, element, in_scope) matches Ok((s2, out)) ==> grows(s, s2) && fresh(
            loop_labels_of(out),
            s.label_counter,
            s2.label_counter,
        ),
    decreases element, 0nat,
{
    match element {
        SourceElementView::FunctionDeclaration(f) => {
            lemma_gen_function(s, f);
            assert(loop_labels_of(Seq::<InstructionView>::empty()) == Seq::<nat>::empty());
        },
        SourceElementView::Statement(stmt) => {
            lemma_gen_stmt(s, stmt, in_scope);
        },
        SourceElementView::ClassDeclaration(_) => {},
    }
}

proof fn lemma_gen_elements(
    s: GenState,
    list: Seq<SourceElementView>,
    k: nat,
    acc: Seq<InstructionView>,
    in_scope: bool,
    lo: nat,
)
    requires
        s.symbols.depth() >= 1,
        lo <= s.label_counter,
        fresh(loop_labels_of(acc), lo, s.label_counter),
    ensures
        gen_elements(s, list, k, acc, in_scope) matches Ok((s2, out)) ==> grows(s, s2) && fresh(
            loop_labels_of(out),
            lo,
            s2.label_counter,
        ),
    decreases list, list.len() - k,
{
    if k < list.len() {
        lemma_gen_element(s, list[k as int], in_scope);
        if let Ok((next, out)) = gen_element(s, list[k as int], in_scope) {
            lemma_labels_concat(acc, out);
            lemma_fresh_concat(
                loop_labels_of(acc),
                loop_labels_of(out),
                lo,
                s.label_counter,
                next.label_counter,
            );
            lemma_gen_elements(next, list, k + 1, acc + out, in_scope, lo);
            if let Ok((s2, all)) = gen_elements(next, list, k + 1, acc + out, in_scope) {
                lemma_grows_twice(s, next, s2);
            }
        }
    }
}

/// What a `while` leaves behind: it took the label that was next, so the
/// counter went up; its one instruction is the loop with that label; and
/// the loops inside it have labels of their own, all above it and below
/// the counter.
pub open spec fn loop_numbered(s: GenState, after: GenState, out: Seq<InstructionView>) -> bool {
    &&& after.label_counter > s.label_counter
    &&& out.len() == 1
    &&& out[0] matches InstructionView::Loop(label, inner)
    &&& label == s.label_counter
    &&& fresh(loop_labels_of(inner), s.label_counter + 1, after.label_counter)
    &&& fresh(loop_labels_of(out), s.label_counter, after.label_counter)
}

/// Every loop of every function of the module has a label below the
/// counter, so the label that a `while` takes next is new to the module.
pub open spec fn labels_below_counter(s: GenState) -> bool {
    forall|i: int|
        0 <= i < s.module.functions.len() ==> fresh(
            loop_labels_of((#[trigger] s.module.functions[i]).instructions),
            0,
            s.label_counter,
        )
}

/// A `while` takes the next label for its loop and gives the loops inside
/// it the labels after that: none comes twice, and the label of the loop
/// is below them all.
pub proof fn lemma_while_labels(s: GenState, w: WhileView, in_scope: bool)
    requires
        s.symbols.depth() >= 1,
    ensures
        gen_while(s, w, in_scope) matches Ok((after, out)) ==> {
            &&& grows(s, after)
            &&& loop_numbered(s, after, out)
            &&& gen_expr(take_label(s), w.expression) matches Ok((s1, condition))
            &&& gen_stmt(s1, *w.statement, true) matches Ok((s2, body))
            &&& s2 == after
            &&& out == seq![loop_instruction(s.label_counter, condition, body)]
            &&& fresh(loop_labels_of(body), s.label_counter + 1, after.label_counter)
        },
{
    lemma_gen_while(s, w, in_scope);
    if let Ok((after, out)) = gen_while(s, w, in_scope) {
        let taken = take_label(s);
        let label = s.label_counter;
        lemma_gen_expr(taken, w.expression);
        let (s1, condition) = gen_expr(taken, w.expression)->Ok_0;
        lemma_gen_stmt(s1, *w.statement, true);
        let (s2, body) = gen_stmt(s1, *w.statement, true)->Ok_0;
        let back = InstructionView::BrLoop(label);
        let guarded = InstructionView::If(Box::new(condition), body.push(back), Seq::empty());
        let inner = seq![guarded];
        assert(out[0] == InstructionView::Loop(label, inner));
        lemma_labels_push(body, back);
        assert(loop_labels(back) == Seq::<nat>::empty());
        assert(loop_labels_of(Seq::<InstructionView>::empty()) == Seq::<nat>::empty());
        assert(loop_labels(guarded) == loop_labels(condition) + loop_labels_of(body.push(back))
            + loop_labels_of(Seq::<InstructionView>::empty()));
        assert(loop_labels(guarded) =~= loop_labels_of(body));
        lemma_labels_one(guarded);
    }
}

/// A statement takes labels in order and gives each loop one of its own:
/// the loops of what it emits have different labels, all taken during the
/// statement.
pub proof fn lemma_statement_labels(s: GenState, stmt: StatementView, in_scope: bool)
    requires
        s.symbols.depth() >= 1,
    ensures
        gen_stmt(s, stmt, in_scope) matches Ok((after, out)) ==> grows(s, after) && fresh(
            loop_labels_of(out),
            s.label_counter,
            after.label_counter,
        ),
{
    lemma_gen_stmt(s, stmt, in_scope);
}

/// A step keeps every label of the module below the counter.
pub proof fn lemma_labels_stay_below(before: GenState, after: GenState)
    requires
        module_grows(before, after),
        labels_below_counter(before),
    ensures
        labels_below_counter(after),
{
    assert forall|i: int| 0 <= i < after.module.functions.len() implies fresh(
        loop_labels_of((#[trigger] after.module.functions[i]).instructions),
        0,
        after.label_counter,
    ) by {
        if i < before.module.functions.len() {
            assert(after.module.functions[i] == before.module.functions[i]);
            lemma_fresh_widen(
                loop_labels_of(before.module.functions[i].instructions),
                0,
                before.label_counter,
                0,
                after.label_counter,
            );
        } else {
            lemma_fresh_widen(
                loop_labels_of(after.module.functions[i].instructions),
                before.label_counter,
                after.label_counter,
                0,
                after.label_counter,
            );
        }
    }
}

/// The signatures of the functions and imports that a module declares.
pub open spec fn declared_signatures(m: ModuleView) -> Set<FunctionTypeView> {
    Set::new(
        |ty: FunctionTypeView|
            exists|t: nat| t < m.types.len() && type_used(m, t) && m.types[t as int] == ty,
    )
}

/// Generating a program grows the module and leaves as many scopes open as
/// there were: every function that is added has loops with labels of their
/// own, and every type that is added is the signature of a function or an
/// import that is added.
pub proof fn lemma_generation_grows(s: GenState, program: Seq<SourceElementView>, in_scope: bool)
    requires
        s.symbols.depth() >= 1,
    ensures
        gen_program(s, program, in_scope) matches Ok((s2, emitted)) ==> grows(s, s2),
{
    assert(loop_labels_of(Seq::<InstructionView>::empty()) == Seq::<nat>::empty());
    lemma_gen_elements(s, program, 0, Seq::empty(), in_scope, s.label_counter);
}

/// Every loop in a function that a step adds has a label of its own.
pub proof fn lemma_distinct_labels(before: GenState, after: GenState, i: int)
    requires
        module_grows(before, after),
        before.module.functions.len() <= i < after.module.functions.len(),
    ensures
        distinct_loop_labels(after.module.functions[i]),
{
}

/// A step keeps the types of the module the signatures of its functions
/// and imports.
pub proof fn lemma_types_stay_closed(before: GenState, after: GenState)
    requires
        module_grows(before, after),
        types_closed(before.module),
    ensures
        types_closed(after.module),
{
    assert forall|t: nat| t < after.module.types.len() implies type_used(after.module, t) by {
        if t < before.module.types.len() {
            lemma_type_used_later(before.module, after.module, t);
        }
    }
}

/// Where no signature comes twice among the types, and the types are the
/// signatures of the module's functions and imports, the module has as
/// many types as its functions and imports have different signatures.
pub proof fn lemma_type_count(m: ModuleView)
    requires
        m.types.no_duplicates(),
        types_closed(m),
    ensures
        m.types.len() == declared_signatures(m).len(),
        declared_signatures(m) == m.types.to_set(),
{
    assert(declared_signatures(m) =~= m.types.to_set()) by {
        assert forall|ty: FunctionTypeView| m.types.to_set().contains(ty) implies declared_signatures(
            m,
        ).contains(ty) by {
            let i = choose|i: int| 0 <= i < m.types.len() && m.types[i] == ty;
            assert(type_used(m, i as nat));
            assert((i as nat) < m.types.len() && type_used(m, i as nat) && m.types[i as nat as int] == ty);
        }
    }
    m.types.unique_seq_to_set();
}

} // verus!
