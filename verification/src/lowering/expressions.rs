use crate::ast::expression::{
    expression_views, ArgumentsExpression, ArgumentsList, ArrayLiteral, BinaryExpression,
    BinaryOperator, BooleanLiteral, ExprView, FloatLiteral, IdentifierExpression, IntegerLiteral,
    Literal, LiteralView, MemberDotExpression, MemberIndexExpression, NewExpression,
    SingleExpression, StringLiteral, ThisExpression, UnaryExpression,
};
use crate::ident::Identifier;
use crate::lowering::builders::{make_field_address, make_member_name, make_synthetic_call};
use crate::lowering::error::{LoweringError, LoweringErrorKind};
use crate::lowering::laws::lemma_operator_becomes_call;
use crate::lowering::model::{
    lower_arguments, lower_assignment, lower_binary, lower_expr, lower_exprs, lower_member_dot,
    lower_new, lower_plain_assignment, lower_this, on_primitives, this_field_offset, BinaryKind,
    LowerCtx,
};
use crate::symbols::bindings::BindingsTable;
use crate::symbols::semantic::SemanticSymbolTable;
use vstd::prelude::*;
use vstd::string::StringExecFns;

verus! {

/// The desugaring pass. It reads the layout of the classes from the
/// bindings; the scopes of semantic analysis it leaves as they are, so the
/// scope of every member of a class must declare `this`, and that of a
/// constructor the class as the type of its result.
#[derive(Debug)]
pub struct AstLowering<'a> {
    pub bindings: &'a mut BindingsTable,
    pub symbols: &'a mut SemanticSymbolTable,
    /// The name of the class that is being desugared.
    pub binding_context: Option<String>,
}

/// The view of an optional name.
pub open spec fn optional_name(name: Option<String>) -> Option<Seq<char>> {
    match name {
        Some(name) => Some(name@),
        None => None,
    }
}

/// A result of desugaring agrees with the model: the same node, seen
/// through its view, or the same error.
pub open spec fn agrees<T: View>(expected: Result<T::V, LoweringError>, r: Result<T, LoweringError>) -> bool {
    match expected {
        Ok(v) => r matches Ok(x) && x@ == v,
        Err(e) => r matches Err(x) && x == e,
    }
}

/// A list of expressions agrees with the model.
pub open spec fn expressions_agree(
    expected: Result<Seq<ExprView>, LoweringError>,
    r: Result<Vec<SingleExpression>, LoweringError>,
) -> bool {
    match expected {
        Ok(v) => r matches Ok(x) && expression_views(x) == v,
        Err(e) => r matches Err(x) && x == e,
    }
}

impl<'a> AstLowering<'a> {
    /// A pass over a program with these bindings and scopes; no class is in
    /// work.
    pub fn new(bindings: &'a mut BindingsTable, symbols: &'a mut SemanticSymbolTable) -> (lowering:
        Self)
        ensures
            lowering.ctx() == (LowerCtx { bindings: old(bindings)@, class: None }),
            *lowering.bindings == *old(bindings),
            *lowering.symbols == *old(symbols),
    {
        Self { bindings, symbols, binding_context: None }
    }

    /// What the rewrites depend on: the layout of the classes and the class
    /// in work.
    pub open spec fn ctx(&self) -> LowerCtx {
        LowerCtx { bindings: self.bindings@, class: optional_name(self.binding_context) }
    }

    /// Desugars an expression: see `lower_expr`.
    pub fn visit_single_expression(&self, node: &SingleExpression) -> (r: Result<
        SingleExpression,
        LoweringError,
    >)
        ensures
            agrees(lower_expr(self.ctx(), node@), r),
        decreases node, 0nat,
    {
        match node {
            SingleExpression::Unary(exp) => {
                let expr = match self.visit_single_expression(&exp.expr) {
                    Ok(expr) => expr,
                    Err(e) => {
                        return Err(e);
                    },
                };
                let lowered = UnaryExpression {
                    span: exp.span,
                    op: exp.op,
                    expr: Box::new(expr),
                    ty: exp.ty.duplicate(),
                };
                assert(lowered@.expr == Box::new(expr@));
                Ok(SingleExpression::Unary(lowered))
            },
            SingleExpression::Assignment(exp) => self.visit_assignment_expression(exp),
            SingleExpression::MemberIndex(exp) => {
                let target = match self.visit_single_expression(&exp.target) {
                    Ok(target) => target,
                    Err(e) => {
                        return Err(e);
                    },
                };
                let index = match self.visit_single_expression(&exp.index) {
                    Ok(index) => index,
                    Err(e) => {
                        return Err(e);
                    },
                };
                let lowered = MemberIndexExpression {
                    span: exp.span,
                    target: Box::new(target),
                    index: Box::new(index),
                    ty: exp.ty.duplicate(),
                };
                assert(lowered@.target == Box::new(target@));
                assert(lowered@.index == Box::new(index@));
                Ok(SingleExpression::MemberIndex(lowered))
            },
            SingleExpression::MemberDot(exp) => self.visit_member_dot(exp),
            SingleExpression::Arguments(exp) => match self.visit_arguments_expression(exp) {
                Ok(call) => Ok(SingleExpression::Arguments(call)),
                Err(e) => Err(e),
            },
            SingleExpression::Multiplicative(exp) => self.visit_binary_expression(
                exp,
                BinaryKind::Multiplicative,
            ),
            SingleExpression::Bitwise(exp) => self.visit_binary_expression(exp, BinaryKind::Bitwise),
            SingleExpression::Additive(exp) => self.visit_binary_expression(
                exp,
                BinaryKind::Additive,
            ),
            SingleExpression::Equality(exp) => self.visit_binary_expression(
                exp,
                BinaryKind::Equality,
            ),
            SingleExpression::Relational(exp) => self.visit_binary_expression(
                exp,
                BinaryKind::Relational,
            ),
            SingleExpression::Identifier(exp) => Ok(
                SingleExpression::Identifier(
                    IdentifierExpression {
                        span: exp.span,
                        ident: exp.ident.duplicate(),
                        ty: exp.ty.duplicate(),
                    },
                ),
            ),
            SingleExpression::Literal(lit) => self.visit_literal(lit),
            SingleExpression::This(exp) => self.visit_this_expression(exp),
            SingleExpression::New(exp) => self.visit_new(exp),
        }
    }

    /// A literal: the elements of an array are desugared, every other
    /// literal stays as it is.
    pub fn visit_literal(&self, lit: &Literal) -> (r: Result<SingleExpression, LoweringError>)
        ensures
            agrees(lower_expr(self.ctx(), ExprView::Literal(lit@)), r),
        decreases lit, 0nat,
    {
        match lit {
            Literal::String(s) => {
                let copy = Literal::String(StringLiteral { span: s.span, value: s.value.clone() });
                assert(copy@ == lit@);
                Ok(SingleExpression::Literal(copy))
            },
            Literal::Integer(i) => {
                let copy = Literal::Integer(IntegerLiteral { span: i.span, value: i.value });
                assert(copy@ == lit@);
                Ok(SingleExpression::Literal(copy))
            },
            Literal::Float(f) => {
                let copy = Literal::Float(FloatLiteral { span: f.span, bits: f.bits });
                assert(copy@ == lit@);
                Ok(SingleExpression::Literal(copy))
            },
            Literal::Boolean(b) => {
                let copy = Literal::Boolean(BooleanLiteral { span: b.span, value: b.value });
                assert(copy@ == lit@);
                Ok(SingleExpression::Literal(copy))
            },
            Literal::Array(a) => {
                let elements = match self.visit_expression_list(&a.elements) {
                    Ok(elements) => elements,
                    Err(e) => {
                        return Err(e);
                    },
                };
                let lowered = Literal::Array(ArrayLiteral { span: a.span, elements });
                assert(lowered@ == LiteralView::Array {
                    span: a.span,
                    elements: expression_views(elements),
                });
                Ok(SingleExpression::Literal(lowered))
            },
        }
    }

    /// A list of expressions, each desugared.
    #[verifier::loop_isolation(false)]
    pub fn visit_expression_list(&self, list: &Vec<SingleExpression>) -> (r: Result<
        Vec<SingleExpression>,
        LoweringError,
    >)
        ensures
            expressions_agree(lower_exprs(self.ctx(), expression_views(*list), 0, Seq::empty()), r),
        decreases list, 0nat,
    {
        let ghost views = expression_views(*list);
        let mut lowered: Vec<SingleExpression> = Vec::new();
        assert(expression_views(lowered) =~= Seq::empty());
        let mut k: usize = 0;
        while k < list.len()
            invariant
                k <= list.len(),
                lower_exprs(self.ctx(), views, 0, Seq::empty()) == lower_exprs(
                    self.ctx(),
                    views,
                    k as nat,
                    expression_views(lowered),
                ),
            decreases list.len() - k,
        {
            let ghost acc = expression_views(lowered);
            match self.visit_single_expression(&list[k]) {
                Ok(e) => {
                    lowered.push(e);
                    assert(expression_views(lowered) =~= acc.push(e@));
                },
                Err(e) => {
                    return Err(e);
                },
            }
            k += 1;
        }
        Ok(lowered)
    }

    /// Desugars `this`: see `lower_this`.
    pub fn visit_this_expression(&self, node: &ThisExpression) -> (r: Result<
        SingleExpression,
        LoweringError,
    >)
        ensures
            agrees(lower_this(self.ctx(), node@), r),
    {
        if self.binding_context.is_some() {
            Ok(
                SingleExpression::Identifier(
                    IdentifierExpression {
                        span: node.span,
                        ident: Identifier::new("this", node.span),
                        ty: node.ty.duplicate(),
                    },
                ),
            )
        } else {
            Err(LoweringError::new(LoweringErrorKind::ThisOutsideClass, node.span))
        }
    }

    /// Desugars a call: see `lower_arguments`.
    pub fn visit_arguments_expression(&self, node: &ArgumentsExpression) -> (r: Result<
        ArgumentsExpression,
        LoweringError,
    >)
        ensures
            agrees(lower_arguments(self.ctx(), node@), r),
        decreases node, 0nat,
    {
        let ident = match self.visit_single_expression(&node.ident) {
            Ok(ident) => ident,
            Err(e) => {
                return Err(e);
            },
        };
        let arguments = match self.visit_expression_list(&node.arguments.arguments) {
            Ok(arguments) => arguments,
            Err(e) => {
                return Err(e);
            },
        };
        let list = ArgumentsList { span: node.arguments.span, arguments };
        assert(list@.arguments == expression_views(arguments));
        let call = ArgumentsExpression {
            span: node.span,
            ident: Box::new(ident),
            arguments: list,
            ty: node.ty.duplicate(),
        };
        assert(call@.ident == Box::new(ident@));
        assert(call@.arguments == list@);
        Ok(call)
    }

    /// Desugars `new`: see `lower_new`.
    pub fn visit_new(&self, node: &NewExpression) -> (r: Result<SingleExpression, LoweringError>)
        ensures
            agrees(lower_new(self.ctx(), node@), r),
        decreases node, 0nat,
    {
        let invalid = LoweringError::new(LoweringErrorKind::InvalidNewTarget, node.span);
        match &*node.expression {
            SingleExpression::Arguments(call) => match &*call.ident {
                SingleExpression::Identifier(class) => {
                    assert(node.expression@ == ExprView::Arguments(call@));
                    assert(call.ident@ == ExprView::Identifier(class@));
                    assert(call@.arguments.arguments == expression_views(call.arguments.arguments));
                    let arguments = match self.visit_expression_list(&call.arguments.arguments) {
                        Ok(arguments) => arguments,
                        Err(e) => {
                            return Err(e);
                        },
                    };
                    // The call of the function that the constructor became
                    let name = make_member_name(&class.ident.value, "constructor");
                    let callee = SingleExpression::Identifier(
                        IdentifierExpression {
                            span: class.span,
                            ident: Identifier::from_string(name, class.ident.span),
                            ty: class.ty.duplicate(),
                        },
                    );
                    let list = ArgumentsList { span: call.arguments.span, arguments };
                    assert(list@.arguments == expression_views(arguments));
                    let lowered = ArgumentsExpression {
                        span: call.span,
                        ident: Box::new(callee),
                        arguments: list,
                        ty: call.ty.duplicate(),
                    };
                    assert(lowered@.ident == Box::new(callee@));
                    assert(lowered@.arguments == list@);
                    Ok(SingleExpression::Arguments(lowered))
                },
                _ => {
                    assert(node.expression@ == ExprView::Arguments(call@));
                    assert(call@.ident == Box::new(call.ident@));
                    Err(invalid)
                },
            },
            _ => Err(invalid),
        }
    }

    /// The offset of the field that `this.member` names.
    pub fn this_field_offset(&self, dot: &MemberDotExpression) -> (r: Result<i32, LoweringError>)
        ensures
            r == this_field_offset(self.ctx(), dot@),
    {
        let class = match &self.binding_context {
            Some(class) => class,
            None => {
                return Err(LoweringError::new(LoweringErrorKind::ThisOutsideClass, dot.span));
            },
        };
        match &*dot.expression {
            SingleExpression::Identifier(field) => {
                match self.bindings.offset_of(class, &field.ident.value) {
                    Some(offset) => Ok(offset),
                    None => if self.bindings.size_of(class).is_none() {
                        Err(LoweringError::new(LoweringErrorKind::UnknownClass, field.span))
                    } else {
                        Err(LoweringError::new(LoweringErrorKind::UnknownField, field.span))
                    },
                }
            },
            _ => Err(LoweringError::new(LoweringErrorKind::InvalidMemberAccess, dot.span)),
        }
    }

    /// Desugars a member access: see `lower_member_dot`.
    pub fn visit_member_dot(&self, node: &MemberDotExpression) -> (r: Result<
        SingleExpression,
        LoweringError,
    >)
        ensures
            agrees(lower_member_dot(self.ctx(), node@), r),
    {
        if let SingleExpression::This(_) = &*node.target {
            let offset = match self.this_field_offset(node) {
                Ok(offset) => offset,
                Err(e) => {
                    return Err(e);
                },
            };
            let mut operands: Vec<SingleExpression> = Vec::new();
            let address = make_field_address(offset);
            operands.push(address);
            assert(expression_views(operands) =~= seq![address@]);
            return Ok(
                make_synthetic_call(node.span, String::from_str("i32Load"), operands, &node.ty),
            );
        }
        Err(LoweringError::new(LoweringErrorKind::InvalidMemberAccess, node.span))
    }

    /// Desugars an assignment: see `lower_assignment`.
    pub fn visit_assignment_expression(&self, node: &BinaryExpression) -> (r: Result<
        SingleExpression,
        LoweringError,
    >)
        ensures
            agrees(lower_assignment(self.ctx(), node@), r),
        decreases node, 1nat,
    {
        if let SingleExpression::MemberDot(dot) = &*node.left {
            if let SingleExpression::This(_) = &*dot.target {
                let offset = match self.this_field_offset(dot) {
                    Ok(offset) => offset,
                    Err(e) => {
                        return Err(e);
                    },
                };
                let value = match self.visit_single_expression(&node.right) {
                    Ok(value) => value,
                    Err(e) => {
                        return Err(e);
                    },
                };
                let mut operands: Vec<SingleExpression> = Vec::new();
                let address = make_field_address(offset);
                operands.push(address);
                operands.push(value);
                assert(expression_views(operands) =~= seq![address@, value@]);
                return Ok(
                    make_synthetic_call(node.span, String::from_str("i32Store"), operands, &node.ty),
                );
            }
        }
        self.visit_plain_assignment(node)
    }

    /// An assignment that keeps its shape.
    pub fn visit_plain_assignment(&self, node: &BinaryExpression) -> (r: Result<
        SingleExpression,
        LoweringError,
    >)
        ensures
            agrees(lower_plain_assignment(self.ctx(), node@), r),
        decreases node, 0nat,
    {
        let left = match self.visit_single_expression(&node.left) {
            Ok(left) => left,
            Err(e) => {
                return Err(e);
            },
        };
        let right = match self.visit_single_expression(&node.right) {
            Ok(right) => right,
            Err(e) => {
                return Err(e);
            },
        };
        let lowered = BinaryExpression {
            span: node.span,
            left: Box::new(left),
            op: node.op,
            right: Box::new(right),
            ty: node.ty.duplicate(),
        };
        assert(lowered@.left == Box::new(left@));
        assert(lowered@.right == Box::new(right@));
        Ok(SingleExpression::Assignment(lowered))
    }

    /// Desugars a binary expression of the kind `kind`: see `lower_binary`.
    /// Where the operator is `+` or `-` and the type of the expression or
    /// that of its left operand is not primitive, the result is the call of
    /// the method of the type, at the span and with the type of the
    /// expression; no binary node stands in its place.
    pub fn visit_binary_expression(&self, node: &BinaryExpression, kind: BinaryKind) -> (r: Result<
        SingleExpression,
        LoweringError,
    >)
        ensures
            agrees(lower_binary(self.ctx(), node@, kind), r),
            (node@.op is Plus || node@.op is Minus) && !on_primitives(node@) ==> (r matches Ok(x)
                ==> x@ matches ExprView::Arguments(call) && call.span == node@.span && call.ty
                == node@.ty && call.arguments.arguments.len() == 2),
        decreases node, 0nat,
    {
        proof {
            if (node@.op is Plus || node@.op is Minus) && !on_primitives(node@) {
                lemma_operator_becomes_call(self.ctx(), node@, kind);
            }
        }
        let left = match self.visit_single_expression(&node.left) {
            Ok(left) => left,
            Err(e) => {
                return Err(e);
            },
        };
        let right = match self.visit_single_expression(&node.right) {
            Ok(right) => right,
            Err(e) => {
                return Err(e);
            },
        };
        let on_primitive = node.ty.primitive().is_some() && node.left.primitive_type().is_some();
        match node.op {
            BinaryOperator::Plus(_) if !on_primitive => {
                let name = make_member_name(&node.ty.name(), "add");
                let mut operands: Vec<SingleExpression> = Vec::new();
                operands.push(left);
                operands.push(right);
                assert(expression_views(operands) =~= seq![left@, right@]);
                Ok(make_synthetic_call(node.span, name, operands, &node.ty))
            },
            BinaryOperator::Minus(_) if !on_primitive => {
                let name = make_member_name(&node.ty.name(), "sub");
                let mut operands: Vec<SingleExpression> = Vec::new();
                operands.push(left);
                operands.push(right);
                assert(expression_views(operands) =~= seq![left@, right@]);
                Ok(make_synthetic_call(node.span, name, operands, &node.ty))
            },
            _ => {
                let lowered = BinaryExpression {
                    span: node.span,
                    left: Box::new(left),
                    op: node.op,
                    right: Box::new(right),
                    ty: node.ty.duplicate(),
                };
                assert(lowered@.left == Box::new(left@));
                assert(lowered@.right == Box::new(right@));
                Ok(
                    match kind {
                        BinaryKind::Multiplicative => SingleExpression::Multiplicative(lowered),
                        BinaryKind::Bitwise => SingleExpression::Bitwise(lowered),
                        BinaryKind::Additive => SingleExpression::Additive(lowered),
                        BinaryKind::Equality => SingleExpression::Equality(lowered),
                        BinaryKind::Relational => SingleExpression::Relational(lowered),
                    },
                )
            },
        }
    }
}

} // verus!
