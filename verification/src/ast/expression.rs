use crate::ident::{IdentView, Identifier};
use crate::span::Span;
use crate::types::{PrimitiveType, Type, TypeView};
use vstd::prelude::*;

verus! {

#[derive(Debug, Clone, Copy, PartialEq, Eq, Structural)]
pub enum UnaryOperator {
    Plus(Span),
    Minus(Span),
    Not(Span),
    PostIncrement(Span),
    PostDecrement(Span),
}

#[derive(Debug, Clone, Copy, PartialEq, Eq, Structural)]
pub enum BinaryOperator {
    Plus(Span),
    Minus(Span),
    Mult(Span),
    Div(Span),
    Equal(Span),
    NotEqual(Span),
    Greater(Span),
    GreaterEqual(Span),
    Less(Span),
    LessEqual(Span),
    And(Span),
    Or(Span),
    Assign(Span),
}

#[derive(Debug, PartialEq)]
pub struct StringLiteral {
    pub span: Span,
    pub value: String,
}

#[derive(Debug, PartialEq)]
pub struct IntegerLiteral {
    pub span: Span,
    pub value: i32,
}

/// A float literal, held as the bits of its IEEE 754 encoding.
#[derive(Debug, PartialEq)]
pub struct FloatLiteral {
    pub span: Span,
    pub bits: u32,
}

#[derive(Debug, PartialEq)]
pub struct BooleanLiteral {
    pub span: Span,
    pub value: bool,
}

#[derive(Debug, PartialEq)]
pub struct ArrayLiteral {
    pub span: Span,
    pub elements: Vec<SingleExpression>,
}

#[derive(Debug, PartialEq)]
pub enum Literal {
    String(StringLiteral),
    Integer(IntegerLiteral),
    Float(FloatLiteral),
    Boolean(BooleanLiteral),
    Array(ArrayLiteral),
}

#[allow(inconsistent_fields)]
pub enum LiteralView {
    String { span: Span, value: Seq<char> },
    Integer { span: Span, value: i32 },
    Float { span: Span, bits: u32 },
    Boolean { span: Span, value: bool },
    Array { span: Span, elements: Seq<ExprView> },
}

/// An expression. The five kinds of binary expression and assignment share
/// one shape and differ in the class of their operator.
#[derive(Debug, PartialEq)]
pub enum SingleExpression {
    Unary(UnaryExpression),
    Assignment(BinaryExpression),
    MemberIndex(MemberIndexExpression),
    MemberDot(MemberDotExpression),
    Arguments(ArgumentsExpression),
    Multiplicative(BinaryExpression),
    Bitwise(BinaryExpression),
    Additive(BinaryExpression),
    Equality(BinaryExpression),
    Relational(BinaryExpression),
    Identifier(IdentifierExpression),
    Literal(Literal),
    This(ThisExpression),
    New(NewExpression),
}

pub enum ExprView {
    Unary(UnaryView),
    Assignment(BinaryView),
    MemberIndex(MemberIndexView),
    MemberDot(MemberDotView),
    Arguments(ArgumentsView),
    Multiplicative(BinaryView),
    Bitwise(BinaryView),
    Additive(BinaryView),
    Equality(BinaryView),
    Relational(BinaryView),
    Identifier(IdentifierExprView),
    Literal(LiteralView),
    This(ThisView),
    New(NewView),
}

/// A call: the callee and the arguments.
#[derive(Debug, PartialEq)]
pub struct ArgumentsExpression {
    pub span: Span,
    pub ident: Box<SingleExpression>,
    pub arguments: ArgumentsList,
    pub ty: Type,
}

pub struct ArgumentsView {
    pub span: Span,
    pub ident: Box<ExprView>,
    pub arguments: ArgumentsListView,
    pub ty: TypeView,
}

#[derive(Debug, PartialEq)]
pub struct ArgumentsList {
    pub span: Span,
    pub arguments: Vec<SingleExpression>,
}

pub struct ArgumentsListView {
    pub span: Span,
    pub arguments: Seq<ExprView>,
}

/// `target[index]`
#[derive(Debug, PartialEq)]
pub struct MemberIndexExpression {
    pub span: Span,
    pub target: Box<SingleExpression>,
    pub index: Box<SingleExpression>,
    pub ty: Type,
}

pub struct MemberIndexView {
    pub span: Span,
    pub target: Box<ExprView>,
    pub index: Box<ExprView>,
    pub ty: TypeView,
}

/// `target.expression`
#[derive(Debug, PartialEq)]
pub struct MemberDotExpression {
    pub span: Span,
    pub target: Box<SingleExpression>,
    pub expression: Box<SingleExpression>,
    pub ty: Type,
}

pub struct MemberDotView {
    pub span: Span,
    pub target: Box<ExprView>,
    pub expression: Box<ExprView>,
    pub ty: TypeView,
}

#[derive(Debug, PartialEq)]
pub struct UnaryExpression {
    pub span: Span,
    pub op: UnaryOperator,
    pub expr: Box<SingleExpression>,
    pub ty: Type,
}

pub struct UnaryView {
    pub span: Span,
    pub op: UnaryOperator,
    pub expr: Box<ExprView>,
    pub ty: TypeView,
}

#[derive(Debug, PartialEq)]
pub struct BinaryExpression {
    pub span: Span,
    pub left: Box<SingleExpression>,
    pub op: BinaryOperator,
    pub right: Box<SingleExpression>,
    pub ty: Type,
}

pub struct BinaryView {
    pub span: Span,
    pub left: Box<ExprView>,
    pub op: BinaryOperator,
    pub right: Box<ExprView>,
    pub ty: TypeView,
}

#[derive(Debug, PartialEq)]
pub struct IdentifierExpression {
    pub span: Span,
    pub ident: Identifier,
    pub ty: Type,
}

pub struct IdentifierExprView {
    pub span: Span,
    pub ident: IdentView,
    pub ty: TypeView,
}

/// `this`
#[derive(Debug, PartialEq)]
pub struct ThisExpression {
    pub span: Span,
    pub ty: Type,
}

pub struct ThisView {
    pub span: Span,
    pub ty: TypeView,
}

/// `new` in front of a call of a class.
#[derive(Debug, PartialEq)]
pub struct NewExpression {
    pub span: Span,
    pub expression: Box<SingleExpression>,
    pub ty: Type,
}

pub struct NewView {
    pub span: Span,
    pub expression: Box<ExprView>,
    pub ty: TypeView,
}

/// The views of a list of expressions, in order.
pub open spec fn expression_views(list: Vec<SingleExpression>) -> Seq<ExprView>
    decreases list,
{
    Seq::new(
        list.len() as nat,
        |i: int|
            if 0 <= i < list.len() {
                list[i].model()
            } else {
                ExprView::Literal(LiteralView::Boolean { span: Span::synthetic_span(), value: false })
            },
    )
}

impl BinaryExpression {
    /// The node as the contracts see it.
    pub open spec fn model(self) -> BinaryView
        decreases self,
    {
        BinaryView {
            span: self.span,
            left: Box::new((*self.left).model()),
            op: self.op,
            right: Box::new((*self.right).model()),
            ty: self.ty@,
        }
    }
}

impl UnaryExpression {
    /// The node as the contracts see it.
    pub open spec fn model(self) -> UnaryView
        decreases self,
    {
        UnaryView { span: self.span, op: self.op, expr: Box::new((*self.expr).model()), ty: self.ty@ }
    }
}

impl MemberIndexExpression {
    /// The node as the contracts see it.
    pub open spec fn model(self) -> MemberIndexView
        decreases self,
    {
        MemberIndexView {
            span: self.span,
            target: Box::new((*self.target).model()),
            index: Box::new((*self.index).model()),
            ty: self.ty@,
        }
    }
}

impl MemberDotExpression {
    /// The node as the contracts see it.
    pub open spec fn model(self) -> MemberDotView
        decreases self,
    {
        MemberDotView {
            span: self.span,
            target: Box::new((*self.target).model()),
            expression: Box::new((*self.expression).model()),
            ty: self.ty@,
        }
    }
}

impl ArgumentsList {
    /// The node as the contracts see it.
    pub open spec fn model(self) -> ArgumentsListView
        decreases self,
    {
        ArgumentsListView { span: self.span, arguments: expression_views(self.arguments) }
    }
}

impl ArgumentsExpression {
    /// The node as the contracts see it.
    pub open spec fn model(self) -> ArgumentsView
        decreases self,
    {
        ArgumentsView {
            span: self.span,
            ident: Box::new((*self.ident).model()),
            arguments: self.arguments.model(),
            ty: self.ty@,
        }
    }
}

impl NewExpression {
    /// The node as the contracts see it.
    pub open spec fn model(self) -> NewView
        decreases self,
    {
        NewView { span: self.span, expression: Box::new((*self.expression).model()), ty: self.ty@ }
    }
}

impl Literal {
    /// The node as the contracts see it.
    pub open spec fn model(self) -> LiteralView
        decreases self,
    {
        match self {
            Literal::String(lit) => LiteralView::String { span: lit.span, value: lit.value@ },
            Literal::Integer(lit) => LiteralView::Integer { span: lit.span, value: lit.value },
            Literal::Float(lit) => LiteralView::Float { span: lit.span, bits: lit.bits },
            Literal::Boolean(lit) => LiteralView::Boolean { span: lit.span, value: lit.value },
            Literal::Array(lit) => LiteralView::Array {
                span: lit.span,
                elements: expression_views(lit.elements),
            },
        }
    }
}

impl SingleExpression {
    /// The node as the contracts see it.
    pub open spec fn model(self) -> ExprView
        decreases self,
    {
        match self {
            SingleExpression::Unary(e) => ExprView::Unary(e.model()),
            SingleExpression::Assignment(e) => ExprView::Assignment(e.model()),
            SingleExpression::MemberIndex(e) => ExprView::MemberIndex(e.model()),
            SingleExpression::MemberDot(e) => ExprView::MemberDot(e.model()),
            SingleExpression::Arguments(e) => ExprView::Arguments(e.model()),
            SingleExpression::Multiplicative(e) => ExprView::Multiplicative(e.model()),
            SingleExpression::Bitwise(e) => ExprView::Bitwise(e.model()),
            SingleExpression::Additive(e) => ExprView::Additive(e.model()),
            SingleExpression::Equality(e) => ExprView::Equality(e.model()),
            SingleExpression::Relational(e) => ExprView::Relational(e.model()),
            SingleExpression::Identifier(e) => ExprView::Identifier(e@),
            SingleExpression::Literal(e) => ExprView::Literal(e.model()),
            SingleExpression::This(e) => ExprView::This(e@),
            SingleExpression::New(e) => ExprView::New(e.model()),
        }
    }
}

impl View for IdentifierExpression {
    type V = IdentifierExprView;

    open spec fn view(&self) -> IdentifierExprView {
        IdentifierExprView { span: self.span, ident: self.ident@, ty: self.ty@ }
    }
}

impl View for ThisExpression {
    type V = ThisView;

    open spec fn view(&self) -> ThisView {
        ThisView { span: self.span, ty: self.ty@ }
    }
}

impl View for SingleExpression {
    type V = ExprView;

    open spec fn view(&self) -> ExprView {
        self.model()
    }
}

impl View for BinaryExpression {
    type V = BinaryView;

    open spec fn view(&self) -> BinaryView {
        self.model()
    }
}

impl View for UnaryExpression {
    type V = UnaryView;

    open spec fn view(&self) -> UnaryView {
        self.model()
    }
}

impl View for MemberIndexExpression {
    type V = MemberIndexView;

    open spec fn view(&self) -> MemberIndexView {
        self.model()
    }
}

impl View for MemberDotExpression {
    type V = MemberDotView;

    open spec fn view(&self) -> MemberDotView {
        self.model()
    }
}

impl View for ArgumentsList {
    type V = ArgumentsListView;

    open spec fn view(&self) -> ArgumentsListView {
        self.model()
    }
}

impl View for ArgumentsExpression {
    type V = ArgumentsView;

    open spec fn view(&self) -> ArgumentsView {
        self.model()
    }
}

impl View for NewExpression {
    type V = NewView;

    open spec fn view(&self) -> NewView {
        self.model()
    }
}

impl View for Literal {
    type V = LiteralView;

    open spec fn view(&self) -> LiteralView {
        self.model()
    }
}

/// The type of a literal: that of its kind; an array's elements are not
/// looked at.
pub open spec fn literal_type(lit: LiteralView) -> TypeView {
    match lit {
        LiteralView::String { .. } => TypeView::String,
        LiteralView::Integer { .. } => TypeView::Primitive(PrimitiveType::I32),
        LiteralView::Float { .. } => TypeView::Primitive(PrimitiveType::F32),
        LiteralView::Boolean { .. } => TypeView::Primitive(PrimitiveType::Boolean),
        LiteralView::Array { .. } => TypeView::Array(Box::new(TypeView::Unknown)),
    }
}

/// The type that semantic analysis gave to an expression.
pub open spec fn defined_type(e: ExprView) -> TypeView {
    match e {
        ExprView::Unary(e) => e.ty,
        ExprView::Assignment(e) => e.ty,
        ExprView::MemberIndex(e) => e.ty,
        ExprView::MemberDot(e) => e.ty,
        ExprView::Arguments(e) => e.ty,
        ExprView::Multiplicative(e) => e.ty,
        ExprView::Bitwise(e) => e.ty,
        ExprView::Additive(e) => e.ty,
        ExprView::Equality(e) => e.ty,
        ExprView::Relational(e) => e.ty,
        ExprView::Identifier(e) => e.ty,
        ExprView::Literal(lit) => literal_type(lit),
        ExprView::This(e) => e.ty,
        ExprView::New(e) => e.ty,
    }
}

/// Where an expression was written.
pub open spec fn expression_span(e: ExprView) -> Span {
    match e {
        ExprView::Unary(e) => e.span,
        ExprView::Assignment(e) => e.span,
        ExprView::MemberIndex(e) => e.span,
        ExprView::MemberDot(e) => e.span,
        ExprView::Arguments(e) => e.span,
        ExprView::Multiplicative(e) => e.span,
        ExprView::Bitwise(e) => e.span,
        ExprView::Additive(e) => e.span,
        ExprView::Equality(e) => e.span,
        ExprView::Relational(e) => e.span,
        ExprView::Identifier(e) => e.span,
        ExprView::Literal(lit) => match lit {
            LiteralView::String { span, .. } => span,
            LiteralView::Integer { span, .. } => span,
            LiteralView::Float { span, .. } => span,
            LiteralView::Boolean { span, .. } => span,
            LiteralView::Array { span, .. } => span,
        },
        ExprView::This(e) => e.span,
        ExprView::New(e) => e.span,
    }
}

impl Literal {
    /// Where the literal was written.
    pub fn span(&self) -> (span: Span)
        ensures
            span == expression_span(ExprView::Literal(self@)),
    {
        match self {
            Literal::String(lit) => lit.span,
            Literal::Integer(lit) => lit.span,
            Literal::Float(lit) => lit.span,
            Literal::Boolean(lit) => lit.span,
            Literal::Array(lit) => lit.span,
        }
    }
}

impl SingleExpression {
    /// Where the expression was written.
    pub fn span(&self) -> (span: Span)
        ensures
            span == expression_span(self@),
    {
        match self {
            SingleExpression::Unary(e) => e.span,
            SingleExpression::Assignment(e) => e.span,
            SingleExpression::MemberIndex(e) => e.span,
            SingleExpression::MemberDot(e) => e.span,
            SingleExpression::Arguments(e) => e.span,
            SingleExpression::Multiplicative(e) => e.span,
            SingleExpression::Bitwise(e) => e.span,
            SingleExpression::Additive(e) => e.span,
            SingleExpression::Equality(e) => e.span,
            SingleExpression::Relational(e) => e.span,
            SingleExpression::Identifier(e) => e.span,
            SingleExpression::Literal(lit) => lit.span(),
            SingleExpression::This(e) => e.span,
            SingleExpression::New(e) => e.span,
        }
    }

    /// The primitive type of the expression, if its type is primitive.
    pub fn primitive_type(&self) -> (p: Option<PrimitiveType>)
        ensures
            p == crate::types::primitive_of(defined_type(self@)),
    {
        match self {
            SingleExpression::Unary(e) => e.ty.primitive(),
            SingleExpression::Assignment(e) => e.ty.primitive(),
            SingleExpression::MemberIndex(e) => e.ty.primitive(),
            SingleExpression::MemberDot(e) => e.ty.primitive(),
            SingleExpression::Arguments(e) => e.ty.primitive(),
            SingleExpression::Multiplicative(e) => e.ty.primitive(),
            SingleExpression::Bitwise(e) => e.ty.primitive(),
            SingleExpression::Additive(e) => e.ty.primitive(),
            SingleExpression::Equality(e) => e.ty.primitive(),
            SingleExpression::Relational(e) => e.ty.primitive(),
            SingleExpression::Identifier(e) => e.ty.primitive(),
            SingleExpression::Literal(lit) => match lit {
                Literal::String(_) => None,
                Literal::Integer(_) => Some(PrimitiveType::I32),
                Literal::Float(_) => Some(PrimitiveType::F32),
                Literal::Boolean(_) => Some(PrimitiveType::Boolean),
                Literal::Array(_) => None,
            },
            SingleExpression::This(e) => e.ty.primitive(),
            SingleExpression::New(e) => e.ty.primitive(),
        }
    }
}

} // verus!
