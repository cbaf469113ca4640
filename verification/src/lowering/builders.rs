//! The nodes that desugaring invents.
use crate::ast::expression::{
    expression_views, ArgumentsExpression, ArgumentsList, BinaryExpression, BinaryOperator,
    IdentifierExpression, IntegerLiteral, Literal, SingleExpression,
};
use crate::ast::declaration::{
    FormalParameterArg, FormalParameterList, FunctionDecorators, PrimaryTypeAnnotation,
    SourceElement, TypeAnnotation,
};
use crate::ast::statement::{
    AssignableElement, ReturnStatement, StatementElement, VariableModifier, VariableStatement,
};
use crate::ident::{Ident, Identifier};
use crate::lowering::model::{
    allocation_statement, class_annotation, field_address, member_name, plain_decorators,
    return_this_statement, synthetic_call, synthetic_identifier, this_parameter,
};
use crate::wast::views;
use crate::span::Span;
use crate::types::{PrimitiveType, Type};
use vstd::prelude::*;
use vstd::string::StringExecFns;

verus! {

/// The name of the function that the member `member` of `class` becomes.
pub fn make_member_name(class: &String, member: &str) -> (name: String)
    ensures
        name@ == member_name(class@, member@),
{
    proof {
        reveal_strlit("#");
    }
    let name = class.clone().concat("#").concat(member);
    assert(name@ =~= member_name(class@, member@));
    name
}

/// The name `name` with the type `ty`, without a place in the source.
pub fn make_synthetic_identifier(name: String, ty: Type) -> (e: SingleExpression)
    ensures
        e@ == synthetic_identifier(name@, ty@),
{
    let span = Span::synthetic();
    let ident = IdentifierExpression { span, ident: Identifier::from_string(name, span), ty };
    SingleExpression::Identifier(ident)
}

/// The call of `callee` with `arguments` at `span`.
pub fn make_synthetic_call(span: Span, callee: String, arguments: Vec<SingleExpression>, ty: &Type) -> (e:
    SingleExpression)
    ensures
        e@ == synthetic_call(span, callee@, expression_views(arguments), ty@),
{
    let ident = make_synthetic_identifier(callee, ty.duplicate());
    let list = ArgumentsList { span: Span::synthetic(), arguments };
    assert(list@.arguments == expression_views(arguments));
    let call = ArgumentsExpression { span, ident: Box::new(ident), arguments: list, ty: ty.duplicate() };
    assert(call@.ident == Box::new(ident@));
    assert(call@.arguments == list@);
    SingleExpression::Arguments(call)
}

/// An integer literal without a place in the source.
pub fn make_integer(value: i32) -> (e: SingleExpression)
    ensures
        e@ == crate::ast::expression::ExprView::Literal(
            crate::ast::expression::LiteralView::Integer { span: Span::synthetic_span(), value },
        ),
{
    let lit = Literal::Integer(IntegerLiteral { span: Span::synthetic(), value });
    assert(lit@ == crate::ast::expression::LiteralView::Integer {
        span: Span::synthetic_span(),
        value,
    });
    SingleExpression::Literal(lit)
}

/// The address of the field at `offset`: `this + offset`.
pub fn make_field_address(offset: i32) -> (e: SingleExpression)
    ensures
        e@ == field_address(offset),
{
    let this = make_synthetic_identifier(
        String::from_str("this"),
        Type::Primitive(PrimitiveType::I32),
    );
    let right = make_integer(offset);
    let sum = BinaryExpression {
        span: Span::synthetic(),
        left: Box::new(this),
        op: BinaryOperator::Plus(Span::synthetic()),
        right: Box::new(right),
        ty: Type::Primitive(PrimitiveType::I32),
    };
    assert(sum@.left == Box::new(this@));
    assert(sum@.right == Box::new(right@));
    SingleExpression::Additive(sum)
}

/// The statement that opens a constructor of `class`, whose instances
/// take `size` bytes.
pub fn make_allocation_statement(class: &String, size: i32) -> (element: SourceElement)
    ensures
        element@ == allocation_statement(class@, size),
{
    let mut operands: Vec<SingleExpression> = Vec::new();
    let bytes = make_integer(size);
    operands.push(bytes);
    assert(expression_views(operands) =~= seq![bytes@]);
    let allocation = make_synthetic_call(
        Span::synthetic(),
        String::from_str("objectNew"),
        operands,
        &Type::Object(class.clone()),
    );
    let variable = VariableStatement {
        span: Span::synthetic(),
        modifier: VariableModifier::Let(Span::synthetic()),
        target: AssignableElement::Identifier(Ident::new("this", Span::synthetic())),
        expression: allocation,
    };
    let statement = StatementElement::Variable(variable);
    assert(statement@ == crate::ast::statement::StatementView::Variable(variable@));
    SourceElement::Statement(statement)
}

/// The statement that closes a constructor of `class`.
pub fn make_return_this_statement(class: &String) -> (element: SourceElement)
    ensures
        element@ == return_this_statement(class@),
{
    let this = make_synthetic_identifier(String::from_str("this"), Type::Object(class.clone()));
    let ret = ReturnStatement { span: Span::synthetic(), expression: this };
    let statement = StatementElement::Return(ret);
    assert(statement@ == crate::ast::statement::StatementView::Return(ret@));
    SourceElement::Statement(statement)
}

/// The type annotation that names the class `class`.
pub fn make_class_annotation(class: &Ident) -> (annotation: TypeAnnotation)
    ensures
        annotation@ == class_annotation(class@),
{
    let primary = PrimaryTypeAnnotation::Reference(class.duplicate());
    assert(primary@ == crate::ast::declaration::PrimaryTypeAnnotationView::Reference(class@));
    TypeAnnotation::Primary(primary)
}

/// The parameter `this` of a method of `class`.
pub fn make_this_parameter(class: &Ident) -> (parameter: FormalParameterArg)
    ensures
        parameter@ == this_parameter(class@),
{
    FormalParameterArg {
        ident: Ident::new("this", Span::synthetic()),
        type_annotation: make_class_annotation(class),
    }
}

/// No annotations, not exported.
pub fn make_plain_decorators() -> (decorators: FunctionDecorators)
    ensures
        decorators@ == plain_decorators(),
{
    let decorators = FunctionDecorators { annotations: Vec::new(), export: false };
    assert(decorators@.annotations =~= Seq::empty());
    decorators
}

/// Copies of the parameters in `params`, after those in `first`.
pub fn extend_parameters(first: Vec<FormalParameterArg>, params: &FormalParameterList) -> (list:
    FormalParameterList)
    ensures
        list@ == views(first) + params@,
{
    let ghost head = views(first);
    let mut parameters = first;
    let mut k: usize = 0;
    while k < params.parameters.len()
        invariant
            k <= params.parameters.len(),
            views(parameters) == head + params@.take(k as int),
        decreases params.parameters.len() - k,
    {
        let ghost before = views(parameters);
        let copy = params.parameters[k].duplicate();
        parameters.push(copy);
        assert(views(parameters) =~= before.push(copy@));
        assert(params@.take(k + 1) =~= params@.take(k as int).push(params@[k as int]));
        assert(views(parameters) =~= head + params@.take(k + 1));
        k += 1;
    }
    assert(params@.take(k as int) =~= params@);
    FormalParameterList { parameters }
}

/// A copy of an optional type annotation.
pub fn duplicate_returns(annotation: &Option<TypeAnnotation>) -> (copy: Option<TypeAnnotation>)
    ensures
        crate::ast::declaration::returns_view(copy) == crate::ast::declaration::returns_view(
            *annotation,
        ),
{
    match annotation {
        Some(annotation) => Some(annotation.duplicate()),
        None => None,
    }
}

} // verus!
