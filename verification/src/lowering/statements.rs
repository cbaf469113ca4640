use crate::ast::statement::{
    statement_views, BlockStatement, EmptyStatement, ExpressionStatement, IfStatement,
    IterationStatement, ReturnStatement, StatementElement, StatementList, VariableStatement,
    WhileIterationElement,
};
use crate::lowering::error::LoweringError;
use crate::lowering::expressions::{agrees, AstLowering};
use crate::lowering::model::{lower_stmt, lower_stmts};
use vstd::prelude::*;

verus! {

impl<'a> AstLowering<'a> {
    /// Desugars a statement: see `lower_stmt`.
    pub fn visit_statement_element(&self, node: &StatementElement) -> (r: Result<
        StatementElement,
        LoweringError,
    >)
        ensures
            agrees(lower_stmt(self.ctx(), node@), r),
        decreases node, 0nat,
    {
        match node {
            StatementElement::Block(block) => {
                let statements = match self.visit_statement_list(&block.statements) {
                    Ok(statements) => statements,
                    Err(e) => {
                        return Err(e);
                    },
                };
                let lowered = BlockStatement { span: block.span, statements };
                assert(lowered@.statements == statements@);
                Ok(StatementElement::Block(lowered))
            },
            StatementElement::Empty(empty) => Ok(
                StatementElement::Empty(EmptyStatement { span: empty.span }),
            ),
            StatementElement::If(branch) => {
                let condition = match self.visit_single_expression(&branch.condition) {
                    Ok(condition) => condition,
                    Err(e) => {
                        return Err(e);
                    },
                };
                let consequence = match self.visit_statement_element(&branch.consequence) {
                    Ok(consequence) => consequence,
                    Err(e) => {
                        return Err(e);
                    },
                };
                let alternative = match &branch.alternative {
                    Some(alternative) => match self.visit_statement_element(alternative) {
                        Ok(alternative) => Some(Box::new(alternative)),
                        Err(e) => {
                            return Err(e);
                        },
                    },
                    None => None,
                };
                let lowered = IfStatement {
                    span: branch.span,
                    condition,
                    consequence: Box::new(consequence),
                    alternative,
                };
                assert(lowered@.consequence == Box::new(consequence@));
                Ok(StatementElement::If(lowered))
            },
            StatementElement::Iteration(iteration) => {
                let IterationStatement::While(w) = iteration;
                assert(iteration@ == crate::ast::statement::IterationView::While(w@));
                let expression = match self.visit_single_expression(&w.expression) {
                    Ok(expression) => expression,
                    Err(e) => {
                        return Err(e);
                    },
                };
                let statement = match self.visit_statement_element(&w.statement) {
                    Ok(statement) => statement,
                    Err(e) => {
                        return Err(e);
                    },
                };
                let lowered = WhileIterationElement {
                    span: w.span,
                    expression,
                    statement: Box::new(statement),
                };
                assert(lowered@.statement == Box::new(statement@));
                let iteration = IterationStatement::While(lowered);
                assert(iteration@ == crate::ast::statement::IterationView::While(lowered@));
                Ok(StatementElement::Iteration(iteration))
            },
            StatementElement::Return(ret) => {
                let expression = match self.visit_single_expression(&ret.expression) {
                    Ok(expression) => expression,
                    Err(e) => {
                        return Err(e);
                    },
                };
                Ok(StatementElement::Return(ReturnStatement { span: ret.span, expression }))
            },
            StatementElement::Variable(v) => {
                let expression = match self.visit_single_expression(&v.expression) {
                    Ok(expression) => expression,
                    Err(e) => {
                        return Err(e);
                    },
                };
                Ok(
                    StatementElement::Variable(
                        VariableStatement {
                            span: v.span,
                            modifier: v.modifier,
                            target: v.target.duplicate(),
                            expression,
                        },
                    ),
                )
            },
            StatementElement::Expression(x) => {
                let expression = match self.visit_single_expression(&x.expression) {
                    Ok(expression) => expression,
                    Err(e) => {
                        return Err(e);
                    },
                };
                Ok(StatementElement::Expression(ExpressionStatement { span: x.span, expression }))
            },
        }
    }

    /// Desugars statements in order: see `lower_stmts`.
    #[verifier::loop_isolation(false)]
    pub fn visit_statement_list(&self, node: &StatementList) -> (r: Result<
        StatementList,
        LoweringError,
    >)
        ensures
            agrees(lower_stmts(self.ctx(), node@, 0, Seq::empty()), r),
        decreases node, 0nat,
    {
        let ghost views = node@;
        let mut lowered: Vec<StatementElement> = Vec::new();
        assert(statement_views(lowered) =~= Seq::empty());
        let mut k: usize = 0;
        while k < node.statements.len()
            invariant
                k <= node.statements.len(),
                views == statement_views(node.statements),
                lower_stmts(self.ctx(), views, 0, Seq::empty()) == lower_stmts(
                    self.ctx(),
                    views,
                    k as nat,
                    statement_views(lowered),
                ),
            decreases node.statements.len() - k,
        {
            let ghost acc = statement_views(lowered);
            match self.visit_statement_element(&node.statements[k]) {
                Ok(statement) => {
                    lowered.push(statement);
                    assert(statement_views(lowered) =~= acc.push(statement@));
                },
                Err(e) => {
                    return Err(e);
                },
            }
            k += 1;
        }
        Ok(StatementList { statements: lowered })
    }
}

} // verus!
