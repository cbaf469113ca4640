use crate::ast::expression::{ExprView, SingleExpression};
use crate::ident::{Ident, IdentView};
use crate::span::Span;
use vstd::prelude::*;

verus! {

#[derive(Debug, Clone, Copy, PartialEq, Eq, Structural)]
pub enum VariableModifier {
    Let(Span),
    Const(Span),
}

impl VariableModifier {
    /// Where the keyword was written.
    pub open spec fn spec_span(self) -> Span {
        match self {
            VariableModifier::Let(span) => span,
            VariableModifier::Const(span) => span,
        }
    }

    /// Where the keyword was written.
    pub fn span(&self) -> (span: Span)
        ensures
            span == self.spec_span(),
    {
        match self {
            VariableModifier::Let(span) => *span,
            VariableModifier::Const(span) => *span,
        }
    }
}

/// What a variable statement declares.
#[derive(Debug, PartialEq)]
pub enum AssignableElement {
    Identifier(Ident),
}

pub enum AssignableView {
    Identifier(IdentView),
}

impl View for AssignableElement {
    type V = AssignableView;

    open spec fn view(&self) -> AssignableView {
        match self {
            AssignableElement::Identifier(ident) => AssignableView::Identifier(ident@),
        }
    }
}

impl AssignableElement {
    /// Where the declared name was written.
    pub fn span(&self) -> (span: Span)
        ensures
            self@ matches AssignableView::Identifier(ident) && span == ident.span,
    {
        match self {
            AssignableElement::Identifier(ident) => ident.span,
        }
    }

    /// A copy of the element.
    pub fn duplicate(&self) -> (copy: Self)
        ensures
            copy@ == self@,
    {
        match self {
            AssignableElement::Identifier(ident) => AssignableElement::Identifier(ident.duplicate()),
        }
    }
}

#[derive(Debug, PartialEq)]
pub enum StatementElement {
    Block(BlockStatement),
    Empty(EmptyStatement),
    If(IfStatement),
    Iteration(IterationStatement),
    Return(ReturnStatement),
    Variable(VariableStatement),
    Expression(ExpressionStatement),
}

pub enum StatementView {
    Block(BlockView),
    Empty(Span),
    If(IfView),
    Iteration(IterationView),
    Return(ReturnView),
    Variable(VariableView),
    Expression(ExpressionStatementView),
}

#[derive(Debug, PartialEq)]
pub struct StatementList {
    pub statements: Vec<StatementElement>,
}

#[derive(Debug, PartialEq)]
pub struct BlockStatement {
    pub span: Span,
    pub statements: StatementList,
}

pub struct BlockView {
    pub span: Span,
    pub statements: Seq<StatementView>,
}

#[derive(Debug, PartialEq)]
pub struct EmptyStatement {
    pub span: Span,
}

#[derive(Debug, PartialEq)]
pub struct IfStatement {
    pub span: Span,
    pub condition: SingleExpression,
    pub consequence: Box<StatementElement>,
    pub alternative: Option<Box<StatementElement>>,
}

pub struct IfView {
    pub span: Span,
    pub condition: ExprView,
    pub consequence: Box<StatementView>,
    pub alternative: Option<Box<StatementView>>,
}

#[derive(Debug, PartialEq)]
pub enum IterationStatement {
    While(WhileIterationElement),
}

pub enum IterationView {
    While(WhileView),
}

#[derive(Debug, PartialEq)]
pub struct WhileIterationElement {
    pub span: Span,
    pub expression: SingleExpression,
    pub statement: Box<StatementElement>,
}

pub struct WhileView {
    pub span: Span,
    pub expression: ExprView,
    pub statement: Box<StatementView>,
}

#[derive(Debug, PartialEq)]
pub struct ReturnStatement {
    pub span: Span,
    pub expression: SingleExpression,
}

pub struct ReturnView {
    pub span: Span,
    pub expression: ExprView,
}

#[derive(Debug, PartialEq)]
pub struct VariableStatement {
    pub span: Span,
    pub modifier: VariableModifier,
    pub target: AssignableElement,
    pub expression: SingleExpression,
}

pub struct VariableView {
    pub span: Span,
    pub modifier: VariableModifier,
    pub target: AssignableView,
    pub expression: ExprView,
}

#[derive(Debug, PartialEq)]
pub struct ExpressionStatement {
    pub span: Span,
    pub expression: SingleExpression,
}

pub struct ExpressionStatementView {
    pub span: Span,
    pub expression: ExprView,
}

/// The views of a list of statements, in order.
pub open spec fn statement_views(list: Vec<StatementElement>) -> Seq<StatementView>
    decreases list,
{
    Seq::new(
        list.len() as nat,
        |i: int|
            if 0 <= i < list.len() {
                list[i].model()
            } else {
                StatementView::Empty(Span::synthetic_span())
            },
    )
}

impl StatementList {
    /// The node as the contracts see it.
    pub open spec fn model(self) -> Seq<StatementView>
        decreases self,
    {
        statement_views(self.statements)
    }
}

impl BlockStatement {
    /// The node as the contracts see it.
    pub open spec fn model(self) -> BlockView
        decreases self,
    {
        BlockView { span: self.span, statements: self.statements.model() }
    }
}

impl IfStatement {
    /// The node as the contracts see it.
    pub open spec fn model(self) -> IfView
        decreases self,
    {
        IfView {
            span: self.span,
            condition: self.condition@,
            consequence: Box::new((*self.consequence).model()),
            alternative: match self.alternative {
                Some(alternative) => Some(Box::new((*alternative).model())),
                None => None,
            },
        }
    }
}

impl WhileIterationElement {
    /// The node as the contracts see it.
    pub open spec fn model(self) -> WhileView
        decreases self,
    {
        WhileView {
            span: self.span,
            expression: self.expression@,
            statement: Box::new((*self.statement).model()),
        }
    }
}

impl IterationStatement {
    /// The node as the contracts see it.
    pub open spec fn model(self) -> IterationView
        decreases self,
    {
        match self {
            IterationStatement::While(element) => IterationView::While(element.model()),
        }
    }
}

impl StatementElement {
    /// The node as the contracts see it.
    pub open spec fn model(self) -> StatementView
        decreases self,
    {
        match self {
            StatementElement::Block(s) => StatementView::Block(s.model()),
            StatementElement::Empty(s) => StatementView::Empty(s.span),
            StatementElement::If(s) => StatementView::If(s.model()),
            StatementElement::Iteration(s) => StatementView::Iteration(s.model()),
            StatementElement::Return(s) => StatementView::Return(s@),
            StatementElement::Variable(s) => StatementView::Variable(s@),
            StatementElement::Expression(s) => StatementView::Expression(s@),
        }
    }
}

impl View for ReturnStatement {
    type V = ReturnView;

    open spec fn view(&self) -> ReturnView {
        ReturnView { span: self.span, expression: self.expression@ }
    }
}

impl View for VariableStatement {
    type V = VariableView;

    open spec fn view(&self) -> VariableView {
        VariableView {
            span: self.span,
            modifier: self.modifier,
            target: self.target@,
            expression: self.expression@,
        }
    }
}

impl View for ExpressionStatement {
    type V = ExpressionStatementView;

    open spec fn view(&self) -> ExpressionStatementView {
        ExpressionStatementView { span: self.span, expression: self.expression@ }
    }
}

impl View for StatementList {
    type V = Seq<StatementView>;

    open spec fn view(&self) -> Seq<StatementView> {
        self.model()
    }
}

impl View for BlockStatement {
    type V = BlockView;

    open spec fn view(&self) -> BlockView {
        self.model()
    }
}

impl View for IfStatement {
    type V = IfView;

    open spec fn view(&self) -> IfView {
        self.model()
    }
}

impl View for WhileIterationElement {
    type V = WhileView;

    open spec fn view(&self) -> WhileView {
        self.model()
    }
}

impl View for IterationStatement {
    type V = IterationView;

    open spec fn view(&self) -> IterationView {
        self.model()
    }
}

impl View for StatementElement {
    type V = StatementView;

    open spec fn view(&self) -> StatementView {
        self.model()
    }
}

} // verus!
