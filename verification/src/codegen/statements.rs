use crate::ast::statement::{
    statement_views, AssignableElement, BlockStatement, ExpressionStatement, IfStatement,
    IterationStatement, ReturnStatement, StatementElement, StatementList, VariableStatement,
    WhileIterationElement,
};
use crate::codegen::error::{CodegenError, CodegenErrorKind};
use crate::codegen::generator::{append_top, expression_outcome, statement_outcome, CodeGenerator};
use crate::codegen::labels::{fresh, loop_labels_of};
use crate::codegen::laws::{grows, lemma_statement_labels, lemma_while_labels, loop_numbered};
use crate::codegen::model::{
    gen_assignable, gen_if, gen_loop, gen_stmt, gen_stmts, gen_variable, gen_while, global_of,
    loop_instruction, take_label,
};
use crate::symbols::wast_table::WastSymbol;
use crate::wast::{instruction_views, GlobalType, Instruction, InstructionView, ValueType};
use vstd::prelude::*;

verus! {

/// What went to a frame in two steps went to it in one.
pub proof fn lemma_append_top_twice(
    frames: Seq<Seq<InstructionView>>,
    first: Seq<InstructionView>,
    second: Seq<InstructionView>,
)
    ensures
        append_top(append_top(frames, first), second) == append_top(frames, first + second),
{
    if frames.len() > 0 {
        assert((frames.last() + first) + second =~= frames.last() + (first + second));
        assert(append_top(append_top(frames, first), second) =~= append_top(frames, first + second));
    }
}

impl CodeGenerator {
    /// Generates a statement: see `gen_stmt`. The loops of what it emits
    /// have labels of their own, all taken during the statement.
    pub fn visit_statement_element(&mut self, node: &StatementElement) -> (r: Result<
        (),
        CodegenError,
    >)
        requires
            old(self).wf(),
        ensures
            final(self).wf(),
            gen_stmt(old(self)@, node@, old(self).frames().len() > 0) matches Ok((after, out))
                ==> grows(old(self)@, after) && fresh(
                loop_labels_of(out),
                old(self)@.label_counter,
                after.label_counter,
            ),
            statement_outcome(
                old(self).frames(),
                final(self).frames(),
                old(self)@,
                final(self)@,
                gen_stmt(old(self)@, node@, old(self).frames().len() > 0),
                r,
            ),
        decreases node, 2nat,
    {
        proof {
            lemma_statement_labels(self@, node@, self.frames().len() > 0);
        }
        match node {
            StatementElement::Block(stmt) => self.visit_block_statement(stmt),
            StatementElement::Empty(_) => {
                assert(append_top(self.frames(), Seq::empty()) =~= self.frames());
                Ok(())
            },
            StatementElement::Return(stmt) => self.visit_return_statement(stmt),
            StatementElement::Variable(stmt) => self.visit_variable_statement(stmt),
            StatementElement::Expression(stmt) => self.visit_expression_statement(stmt),
            StatementElement::If(stmt) => self.visit_if_statement(stmt),
            StatementElement::Iteration(stmt) => self.visit_iteration_statement(stmt),
        }
    }

    /// Generates the statements of a block in order.
    pub fn visit_block_statement(&mut self, node: &BlockStatement) -> (r: Result<(), CodegenError>)
        requires
            old(self).wf(),
        ensures
            final(self).wf(),
            statement_outcome(
                old(self).frames(),
                final(self).frames(),
                old(self)@,
                final(self)@,
                gen_stmts(
                    old(self)@,
                    node@.statements,
                    0,
                    Seq::empty(),
                    old(self).frames().len() > 0,
                ),
                r,
            ),
        decreases node, 0nat,
    {
        self.visit_statement_list(&node.statements)
    }

    /// Generates statements in order: see `gen_stmts`.
    #[verifier::loop_isolation(false)]
    pub fn visit_statement_list(&mut self, node: &StatementList) -> (r: Result<(), CodegenError>)
        requires
            old(self).wf(),
        ensures
            final(self).wf(),
            statement_outcome(
                old(self).frames(),
                final(self).frames(),
                old(self)@,
                final(self)@,
                gen_stmts(old(self)@, node@, 0, Seq::empty(), old(self).frames().len() > 0),
                r,
            ),
        decreases node, 0nat,
    {
        let ghost list = node@;
        let ghost start = self@;
        let ghost in_scope = self.frames().len() > 0;
        let ghost acc: Seq<InstructionView> = Seq::empty();
        assert(append_top(self.frames(), acc) =~= self.frames());
        let mut k: usize = 0;
        while k < node.statements.len()
            invariant
                self.wf(),
                list == statement_views(node.statements),
                k <= node.statements.len(),
                gen_stmts(start, list, 0, Seq::empty(), in_scope) == gen_stmts(
                    self@,
                    list,
                    k as nat,
                    acc,
                    in_scope,
                ),
                self.frames() == append_top(old(self).frames(), acc),
                start.symbols.depth() == self@.symbols.depth(),
                start.semantic.depth() == self@.semantic.depth(),
            decreases node.statements.len() - k,
        {
            let ghost state = self@;
            match self.visit_statement_element(&node.statements[k]) {
                Ok(()) => {
                    proof {
                        let out = gen_stmt(state, list[k as int], in_scope)->Ok_0.1;
                        lemma_append_top_twice(old(self).frames(), acc, out);
                        acc = acc + out;
                    }
                },
                Err(e) => {
                    return Err(e);
                },
            }
            k += 1;
        }
        Ok(())
    }

    /// Generates a `return`: the value, then the instruction.
    pub fn visit_return_statement(&mut self, node: &ReturnStatement) -> (r: Result<
        (),
        CodegenError,
    >)
        requires
            old(self).wf(),
        ensures
            final(self).wf(),
            statement_outcome(
                old(self).frames(),
                final(self).frames(),
                old(self)@,
                final(self)@,
                gen_stmt(
                    old(self)@,
                    crate::ast::statement::StatementView::Return(node@),
                    old(self).frames().len() > 0,
                ),
                r,
            ),
    {
        let exp = match self.visit_single_expression(&node.expression) {
            Ok(exp) => exp,
            Err(e) => {
                return Err(e);
            },
        };
        self.push_instruction(Instruction::Return(Box::new(exp)), node.span)
    }

    /// Generates an expression that stands as a statement.
    pub fn visit_expression_statement(&mut self, node: &ExpressionStatement) -> (r: Result<
        (),
        CodegenError,
    >)
        requires
            old(self).wf(),
        ensures
            final(self).wf(),
            statement_outcome(
                old(self).frames(),
                final(self).frames(),
                old(self)@,
                final(self)@,
                gen_stmt(
                    old(self)@,
                    crate::ast::statement::StatementView::Expression(node@),
                    old(self).frames().len() > 0,
                ),
                r,
            ),
    {
        let isr = match self.visit_single_expression(&node.expression) {
            Ok(isr) => isr,
            Err(e) => {
                return Err(e);
            },
        };
        self.push_instruction(isr, node.span)
    }

    /// The target of a variable statement: see `gen_assignable`.
    pub fn visit_assignable_element(&mut self, elem: &AssignableElement) -> (r: Result<
        Instruction,
        CodegenError,
    >)
        requires
            old(self).wf(),
        ensures
            final(self).wf(),
            final(self).frames() == old(self).frames(),
            expression_outcome(old(self)@, final(self)@, gen_assignable(old(self)@, elem@), r),
    {
        match elem {
            AssignableElement::Identifier(ident) => {
                if self.wast_symbols.lookup(&ident.value).is_some() {
                    return Err(CodegenError::new(CodegenErrorKind::AlreadyDefined, ident.span));
                }
                let ty = match self.semantic_symbols.lookup(&ident.value) {
                    Some(ty) => ValueType::from_type(ty),
                    None => {
                        return Err(
                            CodegenError::new(CodegenErrorKind::UndefinedSymbol, ident.span),
                        );
                    },
                };
                let placeholder = Instruction::Noop;
                assert(placeholder@ == InstructionView::Noop);
                if self.wast_symbols.depth() == 1 {
                    self.wast_symbols.define(ident.value.clone(), WastSymbol::Global(ty));
                    Ok(Instruction::GlobalSet(ident.value.clone(), Box::new(placeholder)))
                } else {
                    self.wast_symbols.define(ident.value.clone(), WastSymbol::Local(ty));
                    Ok(Instruction::LocalSet(ident.value.clone(), Box::new(placeholder)))
                }
            },
        }
    }

    /// Generates a variable statement: see `gen_variable`.
    pub fn visit_variable_statement(&mut self, node: &VariableStatement) -> (r: Result<
        (),
        CodegenError,
    >)
        requires
            old(self).wf(),
        ensures
            final(self).wf(),
            statement_outcome(
                old(self).frames(),
                final(self).frames(),
                old(self)@,
                final(self)@,
                gen_variable(old(self)@, node@, old(self).frames().len() > 0),
                r,
            ),
    {
        let target = match self.visit_assignable_element(&node.target) {
            Ok(target) => target,
            Err(e) => {
                return Err(e);
            },
        };
        let exp = match self.visit_single_expression(&node.expression) {
            Ok(exp) => exp,
            Err(e) => {
                return Err(e);
            },
        };
        match target {
            Instruction::GlobalSet(name, _) => {
                let global = GlobalType {
                    name,
                    ty: ValueType::I32,
                    mutable: true,
                    initializer: exp,
                };
                assert(global@ == global_of(name@, exp@));
                self.push_global(global);
                assert(append_top(self.frames(), Seq::empty()) =~= self.frames());
                Ok(())
            },
            Instruction::LocalSet(name, _) => {
                self.push_instruction(Instruction::LocalSet(name, Box::new(exp)), node.span)
            },
            _ => self.push_instruction(exp, node.span),
        }
    }

    /// Generates an `if`: see `gen_if`. Each branch gets a frame of its own,
    /// which is popped again whatever the branch does.
    pub fn visit_if_statement(&mut self, node: &IfStatement) -> (r: Result<(), CodegenError>)
        requires
            old(self).wf(),
        ensures
            final(self).wf(),
            statement_outcome(
                old(self).frames(),
                final(self).frames(),
                old(self)@,
                final(self)@,
                gen_if(old(self)@, node@, old(self).frames().len() > 0),
                r,
            ),
        decreases node, 0nat,
    {
        let ghost frames = self.frames();
        let cond = match self.visit_single_expression(&node.condition) {
            Ok(cond) => cond,
            Err(e) => {
                return Err(e);
            },
        };
        // The instructions of the consequence
        self.push_instruction_scope();
        let visited = self.visit_statement_element(&node.consequence);
        let cons = self.pop_instruction_scope().unwrap();
        if let Err(e) = visited {
            return Err(e);
        }
        assert(self.frames() =~= frames);
        // The instructions of the alternative
        self.push_instruction_scope();
        let visited = match &node.alternative {
            Some(alternative) => self.visit_statement_element(alternative),
            None => {
                assert(append_top(self.frames(), Seq::empty()) =~= self.frames());
                Ok(())
            },
        };
        let alt = self.pop_instruction_scope().unwrap();
        if let Err(e) = visited {
            return Err(e);
        }
        assert(self.frames() =~= frames);
        self.push_instruction(
            Instruction::If(Box::new(cond), cons.instructions, alt.instructions),
            node.span,
        )
    }

    /// Generates a loop statement.
    pub fn visit_iteration_statement(&mut self, node: &IterationStatement) -> (r: Result<
        (),
        CodegenError,
    >)
        requires
            old(self).wf(),
        ensures
            final(self).wf(),
            statement_outcome(
                old(self).frames(),
                final(self).frames(),
                old(self)@,
                final(self)@,
                gen_stmt(
                    old(self)@,
                    crate::ast::statement::StatementView::Iteration(node@),
                    old(self).frames().len() > 0,
                ),
                r,
            ),
        decreases node, 0nat,
    {
        match node {
            IterationStatement::While(elem) => self.visit_while_iteration_element(elem),
        }
    }

    /// Generates a `while`: see `gen_while`. The loop gets the label that
    /// was next, and the loops inside it the labels after that: the counter
    /// goes up, no label comes twice, and those inside lie above the loop's.
    pub fn visit_while_iteration_element(&mut self, node: &WhileIterationElement) -> (r: Result<
        (),
        CodegenError,
    >)
        requires
            old(self).wf(),
        ensures
            final(self).wf(),
            gen_while(old(self)@, node@, old(self).frames().len() > 0) matches Ok((after, out))
                ==> grows(old(self)@, after) && loop_numbered(old(self)@, after, out),
            statement_outcome(
                old(self).frames(),
                final(self).frames(),
                old(self)@,
                final(self)@,
                gen_while(old(self)@, node@, old(self).frames().len() > 0),
                r,
            ),
        decreases node, 1nat,
    {
        proof {
            lemma_while_labels(self@, node@, self.frames().len() > 0);
        }
        let loop_label = match self.take_label() {
            Some(label) => label,
            None => {
                return Err(CodegenError::new(CodegenErrorKind::LimitExceeded, node.span));
            },
        };
        self.visit_loop(node, loop_label)
    }

    /// Takes the next label; `None`, with nothing changed, where the labels
    /// have run out.
    pub fn take_label(&mut self) -> (label: Option<usize>)
        ensures
            final(self).frames() == old(self).frames(),
            old(self).wf() ==> final(self).wf(),
            match label {
                Some(label) => {
                    &&& label == old(self)@.label_counter
                    &&& label < usize::MAX
                    &&& final(self)@ == take_label(old(self)@)
                },
                None => old(self)@.label_counter >= usize::MAX && *final(self) == *old(self),
            },
    {
        if self.label_counter == usize::MAX {
            return None;
        }
        let label = self.label_counter;
        self.label_counter = self.label_counter + 1;
        assert(self.frames() =~= old(self).frames());
        Some(label)
    }

    /// The loop with the label `label`: see `gen_loop`.
    pub fn visit_loop(&mut self, node: &WhileIterationElement, label: usize) -> (r: Result<
        (),
        CodegenError,
    >)
        requires
            old(self).wf(),
        ensures
            final(self).wf(),
            statement_outcome(
                old(self).frames(),
                final(self).frames(),
                old(self)@,
                final(self)@,
                gen_loop(old(self)@, node@, label as nat, old(self).frames().len() > 0),
                r,
            ),
        decreases node, 0nat,
    {
        let ghost frames = self.frames();
        // The condition is the operand of the branch
        let cond = match self.visit_single_expression(&node.expression) {
            Ok(cond) => cond,
            Err(e) => {
                return Err(e);
            },
        };
        // A frame for the body of the branch
        self.push_instruction_scope();
        let ghost state = self@;
        let visited = self.visit_statement_element(&node.statement);
        if let Err(e) = visited {
            self.pop_instruction_scope();
            return Err(e);
        }
        let ghost body = gen_stmt(state, *node@.statement, true)->Ok_0.1;
        assert(self.frames() =~= frames.push(body));
        // The branch back to the top of the loop
        let back = Instruction::BrLoop(label);
        assert(back@ == InstructionView::BrLoop(label as nat));
        self.append_instruction(back);
        assert(body + seq![back@] =~= body.push(back@));
        assert(frames.push(body).last() == body);
        assert(self.frames() =~= frames.push(body.push(back@)));
        let if_scope = self.pop_instruction_scope().unwrap();
        assert(self.frames() =~= frames);
        let otherwise: Vec<Instruction> = Vec::new();
        assert(instruction_views(otherwise) =~= Seq::empty());
        let guarded = Instruction::If(Box::new(cond), if_scope.instructions, otherwise);
        assert(guarded@ == InstructionView::If(
            Box::new(cond@),
            body.push(InstructionView::BrLoop(label as nat)),
            Seq::empty(),
        ));
        let mut loop_instructions: Vec<Instruction> = Vec::new();
        loop_instructions.push(guarded);
        assert(instruction_views(loop_instructions) =~= seq![guarded@]);
        let whole = Instruction::Loop(label, loop_instructions);
        assert(whole@ == loop_instruction(label as nat, cond@, body));
        self.push_instruction(whole, node.span)
    }
}

} // verus!
