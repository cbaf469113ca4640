//! What code generation computes, as functions on views: from the state of
//! the generator and a node of the tree to the state afterwards and the
//! instructions that the node stands for.
use crate::ast::declaration::{AnnotationView, FunctionDeclView, ParameterView, SourceElementView};
use crate::ast::expression::{
    defined_type, ArgumentsView, BinaryOperator, BinaryView, ExprView, LiteralView, MemberIndexView,
    UnaryOperator, UnaryView,
};
use crate::ast::statement::{
    AssignableView, IfView, IterationView, StatementView, VariableView, WhileView,
};
use crate::codegen::error::{CodegenError, CodegenErrorKind};
use crate::span::Span;
use crate::symbols::semantic::SemanticTableView;
use crate::symbols::wast_table::{ScopeView, WastSymbol, WastTableView};
use crate::types::{primitive_of, PrimitiveType};
use crate::wast::{
    value_type_of, ExportView, FunctionExportView, FunctionImportView, FunctionTypeView,
    FunctionView, GlobalTypeView, ImportView, InstructionView, ModuleView, ValueType,
};
use vstd::prelude::*;

verus! {

/// The state of a generator between two steps: the module so far, the
/// names in scope, the declarations of semantic analysis with the scopes
/// that are entered, and the label that the next loop gets.
pub struct GenState {
    pub module: ModuleView,
    pub symbols: WastTableView,
    pub semantic: SemanticTableView,
    pub label_counter: nat,
}

/// The state after a step and what the step produced, or the error that
/// stopped it.
pub type Gen<T> = Result<(GenState, T), CodegenError>;

/// The first position at or after `k` at which `types` holds `ty`.
pub open spec fn type_from(types: Seq<FunctionTypeView>, ty: FunctionTypeView, k: int) -> Option<int>
    decreases types.len() - k,
{
    if k < 0 || k >= types.len() {
        None
    } else if types[k] == ty {
        Some(k)
    } else {
        type_from(types, ty, k + 1)
    }
}

impl GenState {
    /// The state of a generator that has produced nothing: an empty module,
    /// the global scope open in both tables, the label 0 next.
    pub open spec fn initial(semantic: SemanticTableView) -> GenState {
        GenState {
            module: ModuleView::empty(),
            symbols: WastTableView::empty().push_scope(),
            semantic: semantic.enter(None, None),
            label_counter: 0,
        }
    }

    /// The tables are well formed, a scope is open, and no signature comes
    /// twice among the module's types.
    pub open spec fn wf(self) -> bool {
        &&& self.symbols.wf()
        &&& self.symbols.depth() >= 1
        &&& self.semantic.wf()
        &&& self.module.types.no_duplicates()
    }

    /// The state with other names in scope.
    pub open spec fn with_symbols(self, symbols: WastTableView) -> GenState {
        GenState { symbols, ..self }
    }

    /// The state with another module.
    pub open spec fn with_module(self, module: ModuleView) -> GenState {
        GenState { module, ..self }
    }

    /// Adds a signature to the module's types unless it is there already;
    /// gives the state and the index of the signature.
    pub open spec fn push_type(self, ty: FunctionTypeView) -> (GenState, nat) {
        match type_from(self.module.types, ty, 0) {
            Some(i) => (self, i as nat),
            None => (
                self.with_module(ModuleView { types: self.module.types.push(ty), ..self.module }),
                self.module.types.len(),
            ),
        }
    }

    /// The state after an import is added to the module.
    pub open spec fn push_import(self, import: ImportView) -> GenState {
        self.with_module(ModuleView { imports: self.module.imports.push(import), ..self.module })
    }

    /// The state after a global is added to the module.
    pub open spec fn push_global(self, global: GlobalTypeView) -> GenState {
        self.with_module(ModuleView { globals: self.module.globals.push(global), ..self.module })
    }

    /// The state after a function is added to the module.
    pub open spec fn push_function(self, function: FunctionView) -> GenState {
        self.with_module(
            ModuleView { functions: self.module.functions.push(function), ..self.module },
        )
    }

    /// The state after an export is added to the module.
    pub open spec fn push_export(self, export: ExportView) -> GenState {
        self.with_module(ModuleView { exports: self.module.exports.push(export), ..self.module })
    }
}

/// The failure of kind `kind` at `span`.
pub open spec fn fail<T>(kind: CodegenErrorKind, span: Span) -> Result<T, CodegenError> {
    Err(CodegenError::at(kind, span))
}

/// An operand of an instruction.
pub open spec fn boxed(i: InstructionView) -> Box<InstructionView> {
    Box::new(i)
}

/// The instruction of a binary operator on operands whose left one has the
/// primitive type `left`: every operator but assignment on `i32`, `+` alone
/// on `f32`, none on anything else.
pub open spec fn binary_instruction(
    left: Option<PrimitiveType>,
    op: BinaryOperator,
    lhs: InstructionView,
    rhs: InstructionView,
    span: Span,
) -> Result<InstructionView, CodegenError> {
    match left {
        Some(PrimitiveType::I32) => match op {
            BinaryOperator::Plus(_) => Ok(InstructionView::I32Add(boxed(lhs), boxed(rhs))),
            BinaryOperator::Minus(_) => Ok(InstructionView::I32Sub(boxed(lhs), boxed(rhs))),
            BinaryOperator::Mult(_) => Ok(InstructionView::I32Mul(boxed(lhs), boxed(rhs))),
            BinaryOperator::Div(_) => Ok(InstructionView::I32Div(boxed(lhs), boxed(rhs))),
            BinaryOperator::Equal(_) => Ok(InstructionView::I32Eq(boxed(lhs), boxed(rhs))),
            BinaryOperator::NotEqual(_) => Ok(InstructionView::I32Neq(boxed(lhs), boxed(rhs))),
            BinaryOperator::Greater(_) => Ok(InstructionView::I32Gt(boxed(lhs), boxed(rhs))),
            BinaryOperator::GreaterEqual(_) => Ok(InstructionView::I32Ge(boxed(lhs), boxed(rhs))),
            BinaryOperator::Less(_) => Ok(InstructionView::I32Lt(boxed(lhs), boxed(rhs))),
            BinaryOperator::LessEqual(_) => Ok(InstructionView::I32Le(boxed(lhs), boxed(rhs))),
            BinaryOperator::And(_) => Ok(InstructionView::I32And(boxed(lhs), boxed(rhs))),
            BinaryOperator::Or(_) => Ok(InstructionView::I32Or(boxed(lhs), boxed(rhs))),
            BinaryOperator::Assign(_) => fail(CodegenErrorKind::UnsupportedOperator, span),
        },
        Some(PrimitiveType::F32) => match op {
            BinaryOperator::Plus(_) => Ok(InstructionView::F32Add(boxed(lhs), boxed(rhs))),
            _ => fail(CodegenErrorKind::UnsupportedOperator, span),
        },
        _ => fail(CodegenErrorKind::UnsupportedOperandType, span),
    }
}

/// The instruction of a unary operator: `+x` is `x`, `-x` is `0 - x`, `!x`
/// is `x xor -1`; `++` and `--` have none.
pub open spec fn unary_instruction(op: UnaryOperator, operand: InstructionView, span: Span) -> Result<
    InstructionView,
    CodegenError,
> {
    match op {
        UnaryOperator::Plus(_) => Ok(operand),
        UnaryOperator::Minus(_) => Ok(
            InstructionView::I32Sub(boxed(InstructionView::I32Const(0i32)), boxed(operand)),
        ),
        UnaryOperator::Not(_) => Ok(
            InstructionView::I32Xor(boxed(operand), boxed(InstructionView::I32Const(-1i32))),
        ),
        UnaryOperator::PostIncrement(_) => fail(CodegenErrorKind::UnsupportedOperator, span),
        UnaryOperator::PostDecrement(_) => fail(CodegenErrorKind::UnsupportedOperator, span),
    }
}

/// A name that is read: a local where the innermost scope defines it, a
/// global everywhere else.
pub open spec fn identifier_instruction(symbols: WastTableView, name: Seq<char>) -> InstructionView {
    if symbols.lookup_current(name) is Some {
        InstructionView::LocalGet(name)
    } else {
        InstructionView::GlobalGet(name)
    }
}

/// A name that is written: a global where the outermost scope defines it,
/// a local everywhere else.
pub open spec fn assignment_instruction(symbols: WastTableView, name: Seq<char>, rhs: InstructionView) -> InstructionView {
    if symbols.lookup_global(name) is Some {
        InstructionView::GlobalSet(name, boxed(rhs))
    } else {
        InstructionView::LocalSet(name, boxed(rhs))
    }
}

/// The size in bytes of an element of an array.
pub open spec fn array_element_size() -> i32 {
    4
}

/// The first instruction of an array literal: a new array, its address
/// kept in the local `pointer`.
pub open spec fn array_allocation(pointer: Seq<char>) -> InstructionView {
    InstructionView::LocalSet(
        pointer,
        boxed(
            InstructionView::Call(
                "arrayNew"@,
                seq![InstructionView::I32Const(array_element_size())],
            ),
        ),
    )
}

/// The instruction that appends `value` to the array at `pointer`.
pub open spec fn array_store(pointer: Seq<char>, value: InstructionView) -> InstructionView {
    InstructionView::I32Store(
        boxed(InstructionView::Call("arrayPush"@, seq![InstructionView::LocalGet(pointer)])),
        boxed(value),
    )
}

/// An expression: the state afterwards and its instruction.
pub open spec fn gen_expr(s: GenState, e: ExprView) -> Gen<InstructionView>
    decreases e, 0nat,
{
    match e {
        ExprView::Additive(b) => gen_binary(s, b),
        ExprView::Multiplicative(b) => gen_binary(s, b),
        ExprView::Equality(b) => gen_binary(s, b),
        ExprView::Bitwise(b) => gen_binary(s, b),
        ExprView::Relational(b) => gen_binary(s, b),
        ExprView::Arguments(a) => gen_call(s, a),
        ExprView::Identifier(i) => Ok((s, identifier_instruction(s.symbols, i.ident.value))),
        ExprView::Literal(lit) => gen_literal(s, lit),
        ExprView::Assignment(b) => gen_assignment(s, b),
        ExprView::Unary(u) => gen_unary(s, u),
        ExprView::MemberIndex(m) => gen_member_index(s, m),
        ExprView::MemberDot(m) => fail(CodegenErrorKind::NotLowered, m.span),
        ExprView::This(t) => fail(CodegenErrorKind::NotLowered, t.span),
        ExprView::New(n) => fail(CodegenErrorKind::NotLowered, n.span),
    }
}

/// The expressions `list[k..]` one after the other, their instructions
/// appended to `acc`.
pub open spec fn gen_exprs(s: GenState, list: Seq<ExprView>, k: nat, acc: Seq<InstructionView>) -> Gen<
    Seq<InstructionView>,
>
    decreases list, list.len() - k,
{
    if k >= list.len() {
        Ok((s, acc))
    } else {
        match gen_expr(s, list[k as int]) {
            Err(e) => Err(e),
            Ok((next, i)) => gen_exprs(next, list, k + 1, acc.push(i)),
        }
    }
}

/// Both operands, the left one first, then the operator's instruction.
pub open spec fn gen_binary(s: GenState, b: BinaryView) -> Gen<InstructionView>
    decreases b, 0nat,
{
    match gen_expr(s, *b.left) {
        Err(e) => Err(e),
        Ok((s1, lhs)) => match gen_expr(s1, *b.right) {
            Err(e) => Err(e),
            Ok((s2, rhs)) => match binary_instruction(
                primitive_of(defined_type(*b.left)),
                b.op,
                lhs,
                rhs,
                b.span,
            ) {
                Err(e) => Err(e),
                Ok(i) => Ok((s2, i)),
            },
        },
    }
}

/// The operand, then the operator's instruction.
pub open spec fn gen_unary(s: GenState, u: UnaryView) -> Gen<InstructionView>
    decreases u, 0nat,
{
    match gen_expr(s, *u.expr) {
        Err(e) => Err(e),
        Ok((s1, operand)) => match unary_instruction(u.op, operand, u.span) {
            Err(e) => Err(e),
            Ok(i) => Ok((s1, i)),
        },
    }
}

/// A call of a name: the arguments in order, then the call.
pub open spec fn gen_call(s: GenState, a: ArgumentsView) -> Gen<InstructionView>
    decreases a, 0nat,
{
    match *a.ident {
        ExprView::Identifier(callee) => match gen_exprs(s, a.arguments.arguments, 0, Seq::empty()) {
            Err(e) => Err(e),
            Ok((s1, args)) => Ok((s1, InstructionView::Call(callee.ident.value, args))),
        },
        _ => fail(CodegenErrorKind::InvalidCallTarget, a.span),
    }
}

/// `a[i]`: a call of `arrayAt` with the array and the index.
pub open spec fn gen_member_index(s: GenState, m: MemberIndexView) -> Gen<InstructionView>
    decreases m, 0nat,
{
    match gen_expr(s, *m.target) {
        Err(e) => Err(e),
        Ok((s1, container)) => match gen_expr(s1, *m.index) {
            Err(e) => Err(e),
            Ok((s2, index)) => Ok((s2, InstructionView::Call("arrayAt"@, seq![container, index]))),
        },
    }
}

/// An assignment: the right side first; then a name is set, or the value
/// is stored at the address that `a[i]` gives.
pub open spec fn gen_assignment(s: GenState, b: BinaryView) -> Gen<InstructionView>
    decreases b, 0nat,
{
    match gen_expr(s, *b.right) {
        Err(e) => Err(e),
        Ok((s1, rhs)) => match *b.left {
            ExprView::Identifier(target) => Ok(
                (s1, assignment_instruction(s1.symbols, target.ident.value, rhs)),
            ),
            ExprView::MemberIndex(m) => match gen_member_index(s1, m) {
                Err(e) => Err(e),
                Ok((s2, address)) => Ok((s2, InstructionView::I32Store(boxed(address), boxed(rhs)))),
            },
            _ => fail(CodegenErrorKind::InvalidAssignmentTarget, b.span),
        },
    }
}

/// The elements `elements[k..]` of an array literal, each stored through
/// the local `pointer`.
pub open spec fn gen_array_elements(
    s: GenState,
    elements: Seq<ExprView>,
    k: nat,
    acc: Seq<InstructionView>,
    pointer: Seq<char>,
) -> Gen<Seq<InstructionView>>
    decreases elements, elements.len() - k,
{
    if k >= elements.len() {
        Ok((s, acc))
    } else {
        match gen_expr(s, elements[k as int]) {
            Err(e) => Err(e),
            Ok((next, value)) => gen_array_elements(
                next,
                elements,
                k + 1,
                acc.push(array_store(pointer, value)),
                pointer,
            ),
        }
    }
}

/// A literal. A number or a truth value is a constant. An array gets a
/// synthetic local for its address and becomes one `Complex` instruction:
/// the allocation, a store for each element, the address as the value.
pub open spec fn gen_literal(s: GenState, lit: LiteralView) -> Gen<InstructionView>
    decreases lit, 0nat,
{
    match lit {
        LiteralView::String { span, .. } => fail(CodegenErrorKind::UnsupportedLiteral, span),
        LiteralView::Integer { value, .. } => Ok((s, InstructionView::I32Const(value))),
        LiteralView::Float { bits, .. } => Ok((s, InstructionView::F32Const(bits))),
        LiteralView::Boolean { value, .. } => Ok(
            (s, InstructionView::I32Const(if value { 1i32 } else { 0i32 })),
        ),
        LiteralView::Array { span, elements } => {
            if s.symbols.synthetic >= usize::MAX {
                fail(CodegenErrorKind::LimitExceeded, span)
            } else {
                let pointer = crate::symbols::wast_table::synthetic_name(s.symbols.synthetic);
                let s1 = s.with_symbols(s.symbols.define_synthetic_local(ValueType::I32));
                match gen_array_elements(s1, elements, 0, seq![array_allocation(pointer)], pointer) {
                    Err(e) => Err(e),
                    Ok((s2, stores)) => Ok(
                        (s2, InstructionView::Complex(stores.push(InstructionView::LocalGet(pointer)))),
                    ),
                }
            }
        },
    }
}

/// An instruction goes to the innermost frame; without a frame there is
/// nowhere for it to go.
pub open spec fn emit(in_scope: bool, i: InstructionView, span: Span) -> Result<
    Seq<InstructionView>,
    CodegenError,
> {
    if in_scope {
        Ok(seq![i])
    } else {
        fail(CodegenErrorKind::NoInstructionScope, span)
    }
}

/// The target of a variable statement. The name must be new to every open
/// scope and declared by semantic analysis. It becomes a global where only
/// the global scope is open, and a local everywhere else; the instruction
/// is the assignment without its value.
pub open spec fn gen_assignable(s: GenState, target: AssignableView) -> Gen<InstructionView> {
    match target {
        AssignableView::Identifier(ident) => {
            if s.symbols.lookup(ident.value) is Some {
                fail(CodegenErrorKind::AlreadyDefined, ident.span)
            } else {
                match s.semantic.lookup(ident.value) {
                    None => fail(CodegenErrorKind::UndefinedSymbol, ident.span),
                    Some(ty) => if s.symbols.depth() == 1 {
                        Ok(
                            (
                                s.with_symbols(
                                    s.symbols.define(
                                        ident.value,
                                        WastSymbol::Global(value_type_of(ty)),
                                    ),
                                ),
                                InstructionView::GlobalSet(
                                    ident.value,
                                    boxed(InstructionView::Noop),
                                ),
                            ),
                        )
                    } else {
                        Ok(
                            (
                                s.with_symbols(
                                    s.symbols.define(
                                        ident.value,
                                        WastSymbol::Local(value_type_of(ty)),
                                    ),
                                ),
                                InstructionView::LocalSet(
                                    ident.value,
                                    boxed(InstructionView::Noop),
                                ),
                            ),
                        )
                    },
                }
            }
        },
    }
}

/// The global that a variable statement of the global scope declares.
pub open spec fn global_of(name: Seq<char>, initializer: InstructionView) -> GlobalTypeView {
    GlobalTypeView { name, ty: ValueType::I32, mutable: true, initializer }
}

/// A variable statement: the target, then the value. A global goes to the
/// module with the value as its initializer; a local is set.
pub open spec fn gen_variable(s: GenState, v: VariableView, in_scope: bool) -> Gen<
    Seq<InstructionView>,
> {
    match gen_assignable(s, v.target) {
        Err(e) => Err(e),
        Ok((s1, target)) => match gen_expr(s1, v.expression) {
            Err(e) => Err(e),
            Ok((s2, value)) => match target {
                InstructionView::GlobalSet(name, _) => Ok(
                    (s2.push_global(global_of(name, value)), Seq::empty()),
                ),
                InstructionView::LocalSet(name, _) => match emit(
                    in_scope,
                    InstructionView::LocalSet(name, boxed(value)),
                    v.span,
                ) {
                    Err(e) => Err(e),
                    Ok(out) => Ok((s2, out)),
                },
                _ => match emit(in_scope, value, v.span) {
                    Err(e) => Err(e),
                    Ok(out) => Ok((s2, out)),
                },
            },
        },
    }
}

/// The loop that a `while` statement becomes: the condition guards the
/// body, and the body ends with the branch back to the start.
pub open spec fn loop_instruction(label: nat, condition: InstructionView, body: Seq<InstructionView>) -> InstructionView {
    InstructionView::Loop(
        label,
        seq![
            InstructionView::If(
                boxed(condition),
                body.push(InstructionView::BrLoop(label)),
                Seq::empty(),
            ),
        ],
    )
}

/// A statement: the state afterwards and the instructions that go to the
/// innermost frame. `in_scope` says whether there is a frame.
pub open spec fn gen_stmt(s: GenState, stmt: StatementView, in_scope: bool) -> Gen<
    Seq<InstructionView>,
>
    decreases stmt, 2nat,
{
    match stmt {
        StatementView::Block(block) => gen_stmts(s, block.statements, 0, Seq::empty(), in_scope),
        StatementView::Empty(_) => Ok((s, Seq::empty())),
        StatementView::Return(ret) => match gen_expr(s, ret.expression) {
            Err(e) => Err(e),
            Ok((s1, value)) => match emit(in_scope, InstructionView::Return(boxed(value)), ret.span) {
                Err(e) => Err(e),
                Ok(out) => Ok((s1, out)),
            },
        },
        StatementView::Variable(v) => gen_variable(s, v, in_scope),
        StatementView::Expression(x) => match gen_expr(s, x.expression) {
            Err(e) => Err(e),
            Ok((s1, value)) => match emit(in_scope, value, x.span) {
                Err(e) => Err(e),
                Ok(out) => Ok((s1, out)),
            },
        },
        StatementView::If(branch) => gen_if(s, branch, in_scope),
        StatementView::Iteration(IterationView::While(w)) => gen_while(s, w, in_scope),
    }
}

/// An `if`: the condition, then each branch into a frame of its own; a
/// branch that is not there is empty.
pub open spec fn gen_if(s: GenState, branch: IfView, in_scope: bool) -> Gen<Seq<InstructionView>>
    decreases branch, 0nat,
{
    match gen_expr(s, branch.condition) {
        Err(e) => Err(e),
        Ok((s1, condition)) => match gen_stmt(s1, *branch.consequence, true) {
            Err(e) => Err(e),
            Ok((s2, consequence)) => match (match branch.alternative {
                Some(alternative) => gen_stmt(s2, *alternative, true),
                None => Ok((s2, Seq::empty())),
            }) {
                Err(e) => Err(e),
                Ok((s3, alternative)) => match emit(
                    in_scope,
                    InstructionView::If(boxed(condition), consequence, alternative),
                    branch.span,
                ) {
                    Err(e) => Err(e),
                    Ok(out) => Ok((s3, out)),
                },
            },
        },
    }
}

/// The state after the next label is taken.
pub open spec fn take_label(s: GenState) -> GenState {
    GenState { label_counter: s.label_counter + 1, ..s }
}

/// A `while`: it takes the next label, which no other loop of this
/// generator gets.
pub open spec fn gen_while(s: GenState, w: WhileView, in_scope: bool) -> Gen<Seq<InstructionView>>
    decreases w, 1nat,
{
    if s.label_counter >= usize::MAX {
        fail(CodegenErrorKind::LimitExceeded, w.span)
    } else {
        gen_loop(take_label(s), w, s.label_counter, in_scope)
    }
}

/// The loop with the label `label`: the condition, then the body into a
/// frame of its own.
pub open spec fn gen_loop(s: GenState, w: WhileView, label: nat, in_scope: bool) -> Gen<
    Seq<InstructionView>,
>
    decreases w, 0nat,
{
    match gen_expr(s, w.expression) {
        Err(e) => Err(e),
        Ok((s1, condition)) => match gen_stmt(s1, *w.statement, true) {
            Err(e) => Err(e),
            Ok((s2, body)) => match emit(in_scope, loop_instruction(label, condition, body), w.span) {
                Err(e) => Err(e),
                Ok(out) => Ok((s2, out)),
            },
        },
    }
}

/// The statements `list[k..]` one after the other, what they emit appended
/// to `acc`.
pub open spec fn gen_stmts(
    s: GenState,
    list: Seq<StatementView>,
    k: nat,
    acc: Seq<InstructionView>,
    in_scope: bool,
) -> Gen<Seq<InstructionView>>
    decreases list, list.len() - k,
{
    if k >= list.len() {
        Ok((s, acc))
    } else {
        match gen_stmt(s, list[k as int], in_scope) {
            Err(e) => Err(e),
            Ok((next, out)) => gen_stmts(next, list, k + 1, acc + out, in_scope),
        }
    }
}

/// The parameters `params[k..]`: each must be declared by semantic
/// analysis, and is defined with its position and its run-time type.
pub open spec fn gen_params(
    s: GenState,
    params: Seq<ParameterView>,
    k: nat,
    acc: Seq<(Seq<char>, ValueType)>,
) -> Gen<Seq<(Seq<char>, ValueType)>>
    decreases params.len() - k,
{
    if k >= params.len() {
        Ok((s, acc))
    } else {
        let ident = params[k as int].ident;
        match s.semantic.lookup(ident.value) {
            None => fail(CodegenErrorKind::UndefinedSymbol, ident.span),
            Some(ty) => gen_params(
                s.with_symbols(
                    s.symbols.define(ident.value, WastSymbol::Param(k as usize, value_type_of(ty))),
                ),
                params,
                k + 1,
                acc.push((ident.value, value_type_of(ty))),
            ),
        }
    }
}

/// The run-time type of the result of the function whose scope has the key
/// `span`; `None` where it has no result.
pub open spec fn function_result(semantic: SemanticTableView, span: Span) -> Option<ValueType> {
    match semantic.get_scope(span) {
        Some(scope) => match scope.returns {
            Some(ty) => Some(value_type_of(ty)),
            None => None,
        },
        None => None,
    }
}

/// What the annotations of a function have decided so far.
pub struct Inlined {
    /// The instructions that `wast` annotations gave.
    pub instructions: Seq<InstructionView>,
    /// An annotation gave the body, so the source body is not visited.
    pub has_inlined_body: bool,
    /// The function is imported, so the module does not define it.
    pub is_predefined: bool,
}

impl Inlined {
    /// Nothing decided: no instructions, the body in the source, no import.
    pub open spec fn none() -> Inlined {
        Inlined { instructions: Seq::empty(), has_inlined_body: false, is_predefined: false }
    }
}

/// The string literal that an annotation holds, if it holds one.
pub open spec fn annotation_text(annotation: AnnotationView) -> Option<Seq<char>> {
    match annotation.expr {
        Some(ExprView::Literal(LiteralView::String { value, .. })) => Some(value),
        _ => None,
    }
}

/// The annotations `annotations[k..]` in order. `wast` gives instructions in
/// text form as the body. `native` imports the function from the module
/// that it names. Every other annotation changes nothing.
pub open spec fn gen_annotations(
    s: GenState,
    annotations: Seq<AnnotationView>,
    k: nat,
    acc: Inlined,
    function_name: Seq<char>,
    type_idx: nat,
) -> Gen<Inlined>
    decreases annotations.len() - k,
{
    if k >= annotations.len() {
        Ok((s, acc))
    } else {
        let annotation = annotations[k as int];
        if annotation.name.value == "wast"@ {
            match annotation_text(annotation) {
                None => fail(CodegenErrorKind::UnsupportedAnnotation, annotation.span),
                Some(text) => gen_annotations(
                    s,
                    annotations,
                    k + 1,
                    Inlined {
                        instructions: acc.instructions.push(InstructionView::RawWast(text)),
                        has_inlined_body: true,
                        ..acc
                    },
                    function_name,
                    type_idx,
                ),
            }
        } else if annotation.name.value == "native"@ {
            match annotation_text(annotation) {
                None => fail(CodegenErrorKind::UnsupportedAnnotation, annotation.span),
                Some(module) => gen_annotations(
                    s.push_import(
                        ImportView::Function(
                            FunctionImportView { name: function_name, type_idx, module },
                        ),
                    ),
                    annotations,
                    k + 1,
                    Inlined { has_inlined_body: true, is_predefined: true, ..acc },
                    function_name,
                    type_idx,
                ),
            }
        } else {
            gen_annotations(s, annotations, k + 1, acc, function_name, type_idx)
        }
    }
}

/// The declarations of the locals among the first `n` names of a scope, in
/// the order of the scope.
pub open spec fn local_declarations(scope: ScopeView, n: nat) -> Seq<InstructionView>
    decreases n,
{
    if n == 0 || n > scope.len() {
        Seq::empty()
    } else {
        match scope[n - 1].1 {
            WastSymbol::Local(ty) => local_declarations(scope, (n - 1) as nat).push(
                InstructionView::Local(scope[n - 1].0, ty),
            ),
            _ => local_declarations(scope, (n - 1) as nat),
        }
    }
}

/// What the first part of a function has settled: the index of the
/// signature, the type of the result, what the annotations decided, and
/// the content of the function's frame.
pub struct FunctionParts {
    pub type_idx: nat,
    pub result: Option<ValueType>,
    pub has_inlined_body: bool,
    pub is_predefined: bool,
    pub frame: Seq<InstructionView>,
}

/// The first part of a function, inside its scope: the parameters are
/// defined; the signature is found among the module's types or added to
/// them; the annotations are read; and unless one of them gave the body,
/// the source body is visited.
pub open spec fn gen_function_parts(s: GenState, f: FunctionDeclView) -> Gen<FunctionParts>
    decreases f, 0nat,
{
    match gen_params(s, f.params, 0, Seq::empty()) {
        Err(e) => Err(e),
        Ok((s1, params)) => {
            let result = function_result(s1.semantic, f.span);
            let (s2, type_idx) = s1.push_type(FunctionTypeView { params, ret: result });
            match gen_annotations(
                s2,
                f.decorators.annotations,
                0,
                Inlined::none(),
                f.ident.value,
                type_idx,
            ) {
                Err(e) => Err(e),
                Ok((s3, inlined)) => if inlined.has_inlined_body {
                    Ok(
                        (
                            s3,
                            FunctionParts {
                                type_idx,
                                result,
                                has_inlined_body: true,
                                is_predefined: inlined.is_predefined,
                                frame: inlined.instructions,
                            },
                        ),
                    )
                } else {
                    match gen_elements(s3, f.body.source_elements, 0, Seq::empty(), true) {
                        Err(e) => Err(e),
                        Ok((s4, emitted)) => Ok(
                            (
                                s4,
                                FunctionParts {
                                    type_idx,
                                    result,
                                    has_inlined_body: false,
                                    is_predefined: inlined.is_predefined,
                                    frame: inlined.instructions + emitted,
                                },
                            ),
                        ),
                    }
                },
            }
        },
    }
}

/// The instructions of a function from the content of its frame. A body
/// that an annotation gave is taken as it is. A source body goes into block
/// 0, and a function with a result gets the local `return` and the
/// synthetic return as its tail.
pub open spec fn wrap_body(s: GenState, parts: FunctionParts) -> (GenState, Seq<InstructionView>) {
    if parts.has_inlined_body {
        (s, parts.frame)
    } else {
        match parts.result {
            Some(ty) => (
                s.with_symbols(s.symbols.define("return"@, WastSymbol::Local(ty))),
                seq![InstructionView::Block(0, parts.frame), InstructionView::SynthReturn],
            ),
            None => (s, seq![InstructionView::Block(0, parts.frame)]),
        }
    }
}

/// The entries that a function leaves in the module: the function itself
/// unless it is imported, and its export where it is marked for export.
pub open spec fn commit_function(
    s: GenState,
    f: FunctionDeclView,
    type_idx: nat,
    is_predefined: bool,
    instructions: Seq<InstructionView>,
) -> GenState {
    if is_predefined {
        s
    } else {
        let defined = s.push_function(
            FunctionView { name: f.ident.value, type_idx, instructions },
        );
        if f.decorators.export {
            defined.push_export(
                ExportView::Function(
                    FunctionExportView {
                        function_idx: s.module.functions.len(),
                        name: f.ident.value,
                    },
                ),
            )
        } else {
            defined
        }
    }
}

/// The second part of a function: the body is wrapped; the declarations of
/// the locals, in the order in which they were defined, go in front of it;
/// the function is committed to the module.
pub open spec fn finish_function(s: GenState, f: FunctionDeclView, parts: FunctionParts) -> GenState {
    let (s1, instructions) = wrap_body(s, parts);
    let locals = local_declarations(s1.symbols.current(), s1.symbols.current().len());
    commit_function(s1, f, parts.type_idx, parts.is_predefined, locals + instructions)
}

/// The state in which the parts of a function are generated: its scope is
/// entered in both tables.
pub open spec fn enter_function(s: GenState, span: Span) -> GenState {
    GenState { semantic: s.semantic.enter(Some(span), None), symbols: s.symbols.push_scope(), ..s }
}

/// The state after a function: its scope is left in both tables.
pub open spec fn leave_function(s: GenState) -> GenState {
    GenState { symbols: s.symbols.pop_scope(), semantic: s.semantic.leave(), ..s }
}

/// A function declaration: both parts inside the function's scope.
pub open spec fn gen_function(s: GenState, f: FunctionDeclView) -> Result<GenState, CodegenError>
    decreases f, 1nat,
{
    match gen_function_parts(enter_function(s, f.span), f) {
        Err(e) => Err(e),
        Ok((s1, parts)) => Ok(leave_function(finish_function(s1, f, parts))),
    }
}

/// A source element: a function emits nothing where it stands, a
/// statement what `gen_stmt` gives; a class has no place here.
pub open spec fn gen_element(s: GenState, element: SourceElementView, in_scope: bool) -> Gen<
    Seq<InstructionView>,
>
    decreases element, 0nat,
{
    match element {
        SourceElementView::FunctionDeclaration(f) => match gen_function(s, f) {
            Err(e) => Err(e),
            Ok(next) => Ok((next, Seq::empty())),
        },
        SourceElementView::Statement(stmt) => gen_stmt(s, stmt, in_scope),
        SourceElementView::ClassDeclaration(class) => fail(CodegenErrorKind::NotLowered, class.span),
    }
}

/// The source elements `list[k..]` one after the other, what they emit
/// appended to `acc`.
pub open spec fn gen_elements(
    s: GenState,
    list: Seq<SourceElementView>,
    k: nat,
    acc: Seq<InstructionView>,
    in_scope: bool,
) -> Gen<Seq<InstructionView>>
    decreases list, list.len() - k,
{
    if k >= list.len() {
        Ok((s, acc))
    } else {
        match gen_element(s, list[k as int], in_scope) {
            Err(e) => Err(e),
            Ok((next, out)) => gen_elements(next, list, k + 1, acc + out, in_scope),
        }
    }
}

/// A whole program: its source elements in order.
pub open spec fn gen_program(s: GenState, program: Seq<SourceElementView>, in_scope: bool) -> Gen<
    Seq<InstructionView>,
> {
    gen_elements(s, program, 0, Seq::empty(), in_scope)
}

} // verus!
