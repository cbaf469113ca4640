use crate::ast::expression::{
    expression_views, ArgumentsExpression, ArrayLiteral, BinaryExpression, BinaryOperator,
    IdentifierExpression, Literal, LiteralView, MemberIndexExpression, SingleExpression,
    UnaryExpression, UnaryOperator,
};
use crate::codegen::error::{CodegenError, CodegenErrorKind};
use crate::codegen::model::{
    array_allocation, array_store, binary_instruction, gen_array_elements, gen_assignment,
    gen_binary, gen_call, gen_expr, gen_exprs, gen_literal, gen_member_index, gen_unary,
    identifier_instruction, type_from, Gen, GenState,
};
use crate::span::Span;
use crate::symbols::semantic::{SemanticSymbolTable, SemanticTableView};
use crate::symbols::wast_table::WastSymbolTable;
use crate::types::PrimitiveType;
use crate::wast::{
    instruction_views, Export, Function, FunctionType, GlobalType, Import, Instruction,
    InstructionView, Module, ValueType,
};
use vstd::prelude::*;
use vstd::string::StringExecFns;

verus! {

/// A frame of the instruction-scope stack: the instructions emitted since
/// the frame was pushed.
#[derive(Debug)]
pub struct InstructionScope {
    pub instructions: Vec<Instruction>,
}

/// The code generator. It owns the module that it builds. Whoever needs the
/// instructions of a subtree pushes a frame, visits the subtree and pops the
/// frame again.
#[derive(Debug)]
pub struct CodeGenerator {
    pub module: Module,
    pub scopes: Vec<InstructionScope>,
    pub semantic_symbols: SemanticSymbolTable,
    pub wast_symbols: WastSymbolTable,
    pub label_counter: usize,
}

impl View for CodeGenerator {
    type V = GenState;

    open spec fn view(&self) -> GenState {
        GenState {
            module: self.module@,
            symbols: self.wast_symbols@,
            semantic: self.semantic_symbols@,
            label_counter: self.label_counter as nat,
        }
    }
}

/// What a visit of an expression owes: as many scopes open as before, and
/// on success the state and the instruction that the model gives, on
/// failure the model's error.
pub open spec fn expression_outcome(
    before: GenState,
    after: GenState,
    expected: Gen<InstructionView>,
    r: Result<Instruction, CodegenError>,
) -> bool {
    &&& after.symbols.depth() == before.symbols.depth()
    &&& after.semantic.depth() == before.semantic.depth()
    &&& match expected {
        Ok((s, i)) => r matches Ok(x) && x@ == i && after == s,
        Err(e) => r matches Err(x) && x == e,
    }
}

/// The frames after `emitted` went to the innermost one.
pub open spec fn append_top(frames: Seq<Seq<InstructionView>>, emitted: Seq<InstructionView>) -> Seq<
    Seq<InstructionView>,
> {
    if frames.len() > 0 {
        frames.update(frames.len() - 1, frames.last() + emitted)
    } else {
        frames
    }
}

/// What a visit of a statement owes: as many scopes and frames as before,
/// and on success the state that the model gives, with what the model
/// emits appended to the innermost frame, on failure the model's error.
pub open spec fn statement_outcome(
    frames_before: Seq<Seq<InstructionView>>,
    frames_after: Seq<Seq<InstructionView>>,
    before: GenState,
    after: GenState,
    expected: Gen<Seq<InstructionView>>,
    r: Result<(), CodegenError>,
) -> bool {
    &&& after.symbols.depth() == before.symbols.depth()
    &&& after.semantic.depth() == before.semantic.depth()
    &&& frames_after.len() == frames_before.len()
    &&& match expected {
        Ok((s, emitted)) => r is Ok && after == s && frames_after == append_top(
            frames_before,
            emitted,
        ),
        Err(e) => r matches Err(x) && x == e,
    }
}

/// The first position that holds the signature is the one that the search
/// finds, and nothing where no position does.
pub proof fn lemma_type_from(types: Seq<crate::wast::FunctionTypeView>, ty: crate::wast::FunctionTypeView, k: int)
    requires
        0 <= k,
    ensures
        match type_from(types, ty, k) {
            Some(i) => k <= i < types.len() && types[i] == ty,
            None => forall|j: int| k <= j < types.len() ==> types[j] != ty,
        },
    decreases types.len() - k,
{
    if k < types.len() && types[k] != ty {
        lemma_type_from(types, ty, k + 1);
    }
}

impl Default for CodeGenerator {
    /// A generator for a program without declarations.
    fn default() -> (generator: Self)
        ensures
            generator@ == GenState::initial(SemanticTableView::empty()),
            generator.wf(),
            generator.at_rest(),
    {
        CodeGenerator::new(SemanticSymbolTable::new())
    }
}

impl CodeGenerator {
    /// The frames of the instruction-scope stack, the innermost last.
    pub open spec fn frames(&self) -> Seq<Seq<InstructionView>> {
        Seq::new(
            self.scopes.len() as nat,
            |i: int| instruction_views(self.scopes[i].instructions),
        )
    }

    /// The tables are well formed, a scope is open, and no signature comes
    /// twice among the module's types.
    pub open spec fn wf(&self) -> bool {
        self@.wf()
    }

    /// The generator is between two programs: the global scope alone is
    /// open, and no frame is pushed.
    pub open spec fn at_rest(&self) -> bool {
        self@.symbols.depth() == 1 && self.frames().len() == 0
    }

    /// A generator for a program whose declarations `semantic_symbols`
    /// holds: the module is empty, the global scope is open in both tables,
    /// no frame is pushed.
    pub fn new(semantic_symbols: SemanticSymbolTable) -> (generator: Self)
        requires
            semantic_symbols@.wf(),
        ensures
            generator@ == GenState::initial(semantic_symbols@),
            generator.wf(),
            generator.at_rest(),
            crate::codegen::laws::types_closed(generator@.module),
            crate::codegen::laws::labels_below_counter(generator@),
    {
        let mut semantic_symbols = semantic_symbols;
        semantic_symbols.push_global_scope();
        let mut wast_symbols = WastSymbolTable::new();
        wast_symbols.push_scope();
        let generator = CodeGenerator {
            module: Module::new(),
            scopes: Vec::new(),
            semantic_symbols,
            wast_symbols,
            label_counter: 0,
        };
        assert(generator.frames() =~= Seq::empty());
        assert(generator@.symbols.depth() == 1);
        generator
    }

    /// The module as it stands.
    pub fn module(&self) -> (module: &Module)
        ensures
            module@ == self@.module,
    {
        &self.module
    }

    /// Adds an import to the module and returns its index.
    pub fn push_import(&mut self, import: Import) -> (index: usize)
        ensures
            final(self)@ == old(self)@.push_import(import@),
            final(self).frames() == old(self).frames(),
            index == old(self)@.module.imports.len(),
    {
        self.module.imports.push(import);
        assert(self@.module.imports =~= old(self)@.module.imports.push(import@));
        self.module.imports.len() - 1
    }

    /// Adds a global to the module and returns its index.
    pub fn push_global(&mut self, global: GlobalType) -> (index: usize)
        ensures
            final(self)@ == old(self)@.push_global(global@),
            final(self).frames() == old(self).frames(),
            index == old(self)@.module.globals.len(),
    {
        self.module.globals.push(global);
        assert(self@.module.globals =~= old(self)@.module.globals.push(global@));
        self.module.globals.len() - 1
    }

    /// Finds the signature among the module's types, or adds it to them;
    /// returns its index.
    pub fn push_type(&mut self, new_ty: FunctionType) -> (index: usize)
        requires
            old(self).wf(),
        ensures
            final(self).wf(),
            (final(self)@, index as nat) == old(self)@.push_type(new_ty@),
            final(self).frames() == old(self).frames(),
            index < final(self)@.module.types.len(),
            final(self)@.module.types[index as int] == new_ty@,
    {
        let ghost types = self@.module.types;
        let mut k: usize = 0;
        while k < self.module.types.len()
            invariant
                k <= self.module.types.len(),
                *self == *old(self),
                self.wf(),
                types == self@.module.types,
                type_from(types, new_ty@, 0) == type_from(types, new_ty@, k as int),
            decreases self.module.types.len() - k,
        {
            if self.module.types[k].same(&new_ty) {
                proof {
                    lemma_type_from(types, new_ty@, 0);
                }
                return k;
            }
            k += 1;
        }
        proof {
            lemma_type_from(types, new_ty@, 0);
        }
        self.module.types.push(new_ty);
        assert(self@.module.types =~= types.push(new_ty@));
        self.module.types.len() - 1
    }

    /// Adds a function to the module and returns its index.
    pub fn push_function(&mut self, func: Function) -> (index: usize)
        ensures
            final(self)@ == old(self)@.push_function(func@),
            final(self).frames() == old(self).frames(),
            index == old(self)@.module.functions.len(),
    {
        self.module.functions.push(func);
        assert(self@.module.functions =~= old(self)@.module.functions.push(func@));
        self.module.functions.len() - 1
    }

    /// Adds an export to the module and returns its index.
    pub fn push_export(&mut self, export: Export) -> (index: usize)
        ensures
            final(self)@ == old(self)@.push_export(export@),
            final(self).frames() == old(self).frames(),
            index == old(self)@.module.exports.len(),
    {
        self.module.exports.push(export);
        assert(self@.module.exports =~= old(self)@.module.exports.push(export@));
        self.module.exports.len() - 1
    }

    /// Pushes an empty frame.
    pub fn push_instruction_scope(&mut self)
        ensures
            final(self)@ == old(self)@,
            final(self).frames() == old(self).frames().push(Seq::empty()),
    {
        let frame: Vec<Instruction> = Vec::new();
        assert(instruction_views(frame) =~= Seq::empty());
        self.scopes.push(InstructionScope { instructions: frame });
        assert(self.frames() =~= old(self).frames().push(Seq::empty()));
    }

    /// Pops the innermost frame; `None` where no frame is pushed.
    pub fn pop_instruction_scope(&mut self) -> (scope: Option<InstructionScope>)
        ensures
            final(self)@ == old(self)@,
            match scope {
                Some(frame) => old(self).frames().len() > 0 && instruction_views(
                    frame.instructions,
                ) == old(self).frames().last() && final(self).frames() == old(
                    self,
                ).frames().drop_last(),
                None => old(self).frames().len() == 0 && final(self).frames() == old(self).frames(),
            },
    {
        let scope = self.scopes.pop();
        assert(scope is Some ==> self.frames() =~= old(self).frames().drop_last());
        assert(scope is None ==> self.frames() =~= old(self).frames());
        scope
    }

    /// Appends an instruction to the innermost frame.
    pub fn append_instruction(&mut self, inst: Instruction)
        requires
            old(self).frames().len() > 0,
        ensures
            final(self)@ == old(self)@,
            final(self).frames() == append_top(old(self).frames(), seq![inst@]),
    {
        let mut scope = self.scopes.pop().unwrap();
        let ghost before = instruction_views(scope.instructions);
        scope.instructions.push(inst);
        assert(instruction_views(scope.instructions) =~= before + seq![inst@]);
        self.scopes.push(scope);
        assert(self.frames() =~= append_top(old(self).frames(), seq![inst@]));
    }

    /// Appends an instruction to the innermost frame; an error of kind
    /// `NoInstructionScope` at `span` where no frame is pushed.
    pub fn push_instruction(&mut self, inst: Instruction, span: Span) -> (r: Result<
        (),
        CodegenError,
    >)
        ensures
            final(self)@ == old(self)@,
            match crate::codegen::model::emit(old(self).frames().len() > 0, inst@, span) {
                Ok(out) => r is Ok && final(self).frames() == append_top(old(self).frames(), out),
                Err(e) => r matches Err(x) && x == e && final(self).frames() == old(self).frames(),
            },
    {
        if self.scopes.len() == 0 {
            return Err(CodegenError::new(CodegenErrorKind::NoInstructionScope, span));
        }
        self.append_instruction(inst);
        Ok(())
    }

    /// Generates an expression: see `gen_expr`.
    pub fn visit_single_expression(&mut self, node: &SingleExpression) -> (r: Result<
        Instruction,
        CodegenError,
    >)
        requires
            old(self).wf(),
        ensures
            final(self).wf(),
            final(self).frames() == old(self).frames(),
            expression_outcome(old(self)@, final(self)@, gen_expr(old(self)@, node@), r),
        decreases node,
    {
        match node {
            SingleExpression::Additive(exp) => self.visit_binary_expression(exp),
            SingleExpression::Multiplicative(exp) => self.visit_binary_expression(exp),
            SingleExpression::Equality(exp) => self.visit_binary_expression(exp),
            SingleExpression::Bitwise(exp) => self.visit_binary_expression(exp),
            SingleExpression::Relational(exp) => self.visit_binary_expression(exp),
            SingleExpression::Arguments(exp) => self.visit_argument_expression(exp),
            SingleExpression::Identifier(ident) => Ok(self.visit_identifier_expression(ident)),
            SingleExpression::Literal(lit) => self.visit_literal(lit),
            SingleExpression::Assignment(exp) => self.visit_assignment_expression(exp),
            SingleExpression::Unary(exp) => self.visit_unary_expression(exp),
            SingleExpression::MemberIndex(exp) => self.visit_member_index(exp),
            SingleExpression::MemberDot(exp) => Err(
                CodegenError::new(CodegenErrorKind::NotLowered, exp.span),
            ),
            SingleExpression::This(exp) => Err(
                CodegenError::new(CodegenErrorKind::NotLowered, exp.span),
            ),
            SingleExpression::New(exp) => Err(
                CodegenError::new(CodegenErrorKind::NotLowered, exp.span),
            ),
        }
    }

    /// A name that is read: see `identifier_instruction`.
    pub fn visit_identifier_expression(&mut self, node: &IdentifierExpression) -> (i: Instruction)
        ensures
            *final(self) == *old(self),
            i@ == identifier_instruction(old(self)@.symbols, node@.ident.value),
    {
        if self.wast_symbols.lookup_current(&node.ident.value).is_some() {
            Instruction::LocalGet(node.ident.value.clone())
        } else {
            Instruction::GlobalGet(node.ident.value.clone())
        }
    }

    /// Generates a unary expression: see `gen_unary`.
    pub fn visit_unary_expression(&mut self, node: &UnaryExpression) -> (r: Result<
        Instruction,
        CodegenError,
    >)
        requires
            old(self).wf(),
        ensures
            final(self).wf(),
            final(self).frames() == old(self).frames(),
            expression_outcome(old(self)@, final(self)@, gen_unary(old(self)@, node@), r),
        decreases node,
    {
        let exp = match self.visit_single_expression(&node.expr) {
            Ok(exp) => exp,
            Err(e) => {
                return Err(e);
            },
        };
        match node.op {
            UnaryOperator::Plus(_) => Ok(exp),
            UnaryOperator::Minus(_) => {
                let zero = Instruction::I32Const(0);
                assert(zero@ == InstructionView::I32Const(0i32));
                Ok(Instruction::I32Sub(Box::new(zero), Box::new(exp)))
            },
            UnaryOperator::Not(_) => {
                let ones = Instruction::I32Const(-1);
                assert(ones@ == InstructionView::I32Const(-1i32));
                Ok(Instruction::I32Xor(Box::new(exp), Box::new(ones)))
            },
            UnaryOperator::PostIncrement(_) => Err(
                CodegenError::new(CodegenErrorKind::UnsupportedOperator, node.span),
            ),
            UnaryOperator::PostDecrement(_) => Err(
                CodegenError::new(CodegenErrorKind::UnsupportedOperator, node.span),
            ),
        }
    }

    /// Generates a binary expression: see `gen_binary`.
    pub fn visit_binary_expression(&mut self, node: &BinaryExpression) -> (r: Result<
        Instruction,
        CodegenError,
    >)
        requires
            old(self).wf(),
        ensures
            final(self).wf(),
            final(self).frames() == old(self).frames(),
            expression_outcome(old(self)@, final(self)@, gen_binary(old(self)@, node@), r),
        decreases node,
    {
        let lhs = match self.visit_single_expression(&node.left) {
            Ok(lhs) => lhs,
            Err(e) => {
                return Err(e);
            },
        };
        let rhs = match self.visit_single_expression(&node.right) {
            Ok(rhs) => rhs,
            Err(e) => {
                return Err(e);
            },
        };
        Self::binary_operation(node.left.primitive_type(), node.op, lhs, rhs, node.span)
    }

    /// The instruction of `op` on operands whose left one has the primitive
    /// type `left`.
    pub fn binary_operation(
        left: Option<PrimitiveType>,
        op: BinaryOperator,
        lhs: Instruction,
        rhs: Instruction,
        span: Span,
    ) -> (r: Result<Instruction, CodegenError>)
        ensures
            match binary_instruction(left, op, lhs@, rhs@, span) {
                Ok(i) => r matches Ok(x) && x@ == i,
                Err(e) => r matches Err(x) && x == e,
            },
    {
        let unsupported = CodegenError::new(CodegenErrorKind::UnsupportedOperator, span);
        match left {
            Some(PrimitiveType::I32) => match op {
                BinaryOperator::Plus(_) => Ok(Instruction::I32Add(Box::new(lhs), Box::new(rhs))),
                BinaryOperator::Minus(_) => Ok(Instruction::I32Sub(Box::new(lhs), Box::new(rhs))),
                BinaryOperator::Mult(_) => Ok(Instruction::I32Mul(Box::new(lhs), Box::new(rhs))),
                BinaryOperator::Div(_) => Ok(Instruction::I32Div(Box::new(lhs), Box::new(rhs))),
                BinaryOperator::Equal(_) => Ok(Instruction::I32Eq(Box::new(lhs), Box::new(rhs))),
                BinaryOperator::NotEqual(_) => Ok(
                    Instruction::I32Neq(Box::new(lhs), Box::new(rhs)),
                ),
                BinaryOperator::Greater(_) => Ok(Instruction::I32Gt(Box::new(lhs), Box::new(rhs))),
                BinaryOperator::GreaterEqual(_) => Ok(
                    Instruction::I32Ge(Box::new(lhs), Box::new(rhs)),
                ),
                BinaryOperator::Less(_) => Ok(Instruction::I32Lt(Box::new(lhs), Box::new(rhs))),
                BinaryOperator::LessEqual(_) => Ok(
                    Instruction::I32Le(Box::new(lhs), Box::new(rhs)),
                ),
                BinaryOperator::And(_) => Ok(Instruction::I32And(Box::new(lhs), Box::new(rhs))),
                BinaryOperator::Or(_) => Ok(Instruction::I32Or(Box::new(lhs), Box::new(rhs))),
                BinaryOperator::Assign(_) => Err(unsupported),
            },
            Some(PrimitiveType::F32) => match op {
                BinaryOperator::Plus(_) => Ok(Instruction::F32Add(Box::new(lhs), Box::new(rhs))),
                _ => Err(unsupported),
            },
            _ => Err(CodegenError::new(CodegenErrorKind::UnsupportedOperandType, span)),
        }
    }

    /// Generates a call: see `gen_call`.
    #[verifier::loop_isolation(false)]
    pub fn visit_argument_expression(&mut self, node: &ArgumentsExpression) -> (r: Result<
        Instruction,
        CodegenError,
    >)
        requires
            old(self).wf(),
        ensures
            final(self).wf(),
            final(self).frames() == old(self).frames(),
            expression_outcome(old(self)@, final(self)@, gen_call(old(self)@, node@), r),
        decreases node,
    {
        match &*node.ident {
            SingleExpression::Identifier(callee) => {
                let ghost list = node@.arguments.arguments;
                let ghost start = self@;
                let mut instructions: Vec<Instruction> = Vec::new();
                assert(instruction_views(instructions) =~= Seq::empty());
                let mut k: usize = 0;
                while k < node.arguments.arguments.len()
                    invariant
                        self.wf(),
                        self.frames() == old(self).frames(),
                        list == expression_views(node.arguments.arguments),
                        k <= node.arguments.arguments.len(),
                        gen_exprs(start, list, 0, Seq::empty()) == gen_exprs(
                            self@,
                            list,
                            k as nat,
                            instruction_views(instructions),
                        ),
                        start.symbols.depth() == self@.symbols.depth(),
                        start.semantic.depth() == self@.semantic.depth(),
                    decreases node.arguments.arguments.len() - k,
                {
                    let ghost acc = instruction_views(instructions);
                    match self.visit_single_expression(&node.arguments.arguments[k]) {
                        Ok(i) => {
                            instructions.push(i);
                            assert(instruction_views(instructions) =~= acc.push(i@));
                        },
                        Err(e) => {
                            return Err(e);
                        },
                    }
                    k += 1;
                }
                Ok(Instruction::Call(callee.ident.value.clone(), instructions))
            },
            _ => Err(CodegenError::new(CodegenErrorKind::InvalidCallTarget, node.span)),
        }
    }

    /// Generates `a[i]`: see `gen_member_index`.
    pub fn visit_member_index(&mut self, node: &MemberIndexExpression) -> (r: Result<
        Instruction,
        CodegenError,
    >)
        requires
            old(self).wf(),
        ensures
            final(self).wf(),
            final(self).frames() == old(self).frames(),
            expression_outcome(old(self)@, final(self)@, gen_member_index(old(self)@, node@), r),
        decreases node,
    {
        let container = match self.visit_single_expression(&node.target) {
            Ok(container) => container,
            Err(e) => {
                return Err(e);
            },
        };
        let index = match self.visit_single_expression(&node.index) {
            Ok(index) => index,
            Err(e) => {
                return Err(e);
            },
        };
        let mut operands: Vec<Instruction> = Vec::new();
        operands.push(container);
        operands.push(index);
        assert(instruction_views(operands) =~= seq![container@, index@]);
        Ok(Instruction::Call(String::from_str("arrayAt"), operands))
    }

    /// Generates an assignment: see `gen_assignment`.
    pub fn visit_assignment_expression(&mut self, node: &BinaryExpression) -> (r: Result<
        Instruction,
        CodegenError,
    >)
        requires
            old(self).wf(),
        ensures
            final(self).wf(),
            final(self).frames() == old(self).frames(),
            expression_outcome(old(self)@, final(self)@, gen_assignment(old(self)@, node@), r),
        decreases node,
    {
        let rhs = match self.visit_single_expression(&node.right) {
            Ok(rhs) => rhs,
            Err(e) => {
                return Err(e);
            },
        };
        match &*node.left {
            SingleExpression::Identifier(target) => {
                let name = target.ident.value.clone();
                if self.wast_symbols.lookup_global(&target.ident.value).is_some() {
                    Ok(Instruction::GlobalSet(name, Box::new(rhs)))
                } else {
                    Ok(Instruction::LocalSet(name, Box::new(rhs)))
                }
            },
            SingleExpression::MemberIndex(exp) => {
                let address = match self.visit_member_index(exp) {
                    Ok(address) => address,
                    Err(e) => {
                        return Err(e);
                    },
                };
                Ok(Instruction::I32Store(Box::new(address), Box::new(rhs)))
            },
            _ => Err(CodegenError::new(CodegenErrorKind::InvalidAssignmentTarget, node.span)),
        }
    }

    /// Generates a literal: see `gen_literal`.
    pub fn visit_literal(&mut self, node: &Literal) -> (r: Result<Instruction, CodegenError>)
        requires
            old(self).wf(),
        ensures
            final(self).wf(),
            final(self).frames() == old(self).frames(),
            expression_outcome(old(self)@, final(self)@, gen_literal(old(self)@, node@), r),
        decreases node,
    {
        match node {
            Literal::String(lit) => Err(
                CodegenError::new(CodegenErrorKind::UnsupportedLiteral, lit.span),
            ),
            Literal::Integer(lit) => Ok(Instruction::I32Const(lit.value)),
            Literal::Float(lit) => Ok(Instruction::F32Const(lit.bits)),
            Literal::Boolean(lit) => if lit.value {
                Ok(Instruction::I32Const(1))
            } else {
                Ok(Instruction::I32Const(0))
            },
            Literal::Array(lit) => self.visit_array_literal(lit),
        }
    }

    /// An array literal: see `gen_literal`.
    #[verifier::loop_isolation(false)]
    pub fn visit_array_literal(&mut self, lit: &ArrayLiteral) -> (r: Result<
        Instruction,
        CodegenError,
    >)
        requires
            old(self).wf(),
        ensures
            final(self).wf(),
            final(self).frames() == old(self).frames(),
            expression_outcome(
                old(self)@,
                final(self)@,
                gen_literal(
                    old(self)@,
                    LiteralView::Array { span: lit.span, elements: expression_views(lit.elements) },
                ),
                r,
            ),
        decreases lit,
    {
        let ghost elements = expression_views(lit.elements);
        let pointer = match self.wast_symbols.define_synthetic_local(ValueType::I32) {
            Some(pointer) => pointer,
            None => {
                return Err(CodegenError::new(CodegenErrorKind::LimitExceeded, lit.span));
            },
        };
        let ghost start = self@;
        let mut size: Vec<Instruction> = Vec::new();
        let four = Instruction::I32Const(4);
        assert(four@ == InstructionView::I32Const(4i32));
        size.push(four);
        assert(instruction_views(size) =~= seq![InstructionView::I32Const(4i32)]);
        let allocate = Instruction::Call(String::from_str("arrayNew"), size);
        assert(allocate@ == InstructionView::Call("arrayNew"@, instruction_views(size)));
        let keep = Instruction::LocalSet(pointer.clone(), Box::new(allocate));
        assert(keep@ == array_allocation(pointer@));
        let mut instructions: Vec<Instruction> = Vec::new();
        instructions.push(keep);
        assert(instruction_views(instructions) =~= seq![array_allocation(pointer@)]);
        let mut k: usize = 0;
        while k < lit.elements.len()
            invariant
                self.wf(),
                self.frames() == old(self).frames(),
                elements == expression_views(lit.elements),
                k <= lit.elements.len(),
                gen_array_elements(start, elements, 0, seq![array_allocation(pointer@)], pointer@)
                    == gen_array_elements(
                    self@,
                    elements,
                    k as nat,
                    instruction_views(instructions),
                    pointer@,
                ),
                start.symbols.depth() == self@.symbols.depth(),
                start.semantic.depth() == self@.semantic.depth(),
            decreases lit.elements.len() - k,
        {
            let ghost acc = instruction_views(instructions);
            match self.visit_single_expression(&lit.elements[k]) {
                Ok(value) => {
                    let mut operand: Vec<Instruction> = Vec::new();
                    let address = Instruction::LocalGet(pointer.clone());
                    assert(address@ == InstructionView::LocalGet(pointer@));
                    operand.push(address);
                    assert(instruction_views(operand) =~= seq![InstructionView::LocalGet(pointer@)]);
                    let push = Instruction::Call(String::from_str("arrayPush"), operand);
                    assert(push@ == InstructionView::Call("arrayPush"@, instruction_views(operand)));
                    let store = Instruction::I32Store(Box::new(push), Box::new(value));
                    assert(store@ == array_store(pointer@, value@));
                    instructions.push(store);
                    assert(instruction_views(instructions) =~= acc.push(
                        array_store(pointer@, value@),
                    ));
                },
                Err(e) => {
                    return Err(e);
                },
            }
            k += 1;
        }
        let ghost stores = instruction_views(instructions);
        let result = Instruction::LocalGet(pointer.clone());
        assert(result@ == InstructionView::LocalGet(pointer@));
        instructions.push(result);
        assert(instruction_views(instructions) =~= stores.push(InstructionView::LocalGet(pointer@)));
        Ok(Instruction::Complex(instructions))
    }
}

} // verus!
