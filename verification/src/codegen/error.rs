use crate::span::Span;
use vstd::prelude::*;
use vstd::string::StringExecFns;

verus! {

/// What stopped code generation.
#[derive(Debug, Clone, Copy, PartialEq, Eq, Structural)]
pub enum CodegenErrorKind {
    /// An operator for which the operand type has no instruction: anything
    /// but `+` on `f32`, an assignment operator in a binary expression,
    /// `++` and `--`.
    UnsupportedOperator,
    /// A binary expression whose left operand is neither `i32` nor `f32`.
    UnsupportedOperandType,
    /// A string literal.
    UnsupportedLiteral,
    /// A `wast` or `native` annotation without a string literal.
    UnsupportedAnnotation,
    /// A call of something that is not a name.
    InvalidCallTarget,
    /// An assignment to something that is neither a name nor `a[i]`.
    InvalidAssignmentTarget,
    /// A parameter or a variable that semantic analysis did not declare.
    UndefinedSymbol,
    /// A variable statement for a name that is defined already.
    AlreadyDefined,
    /// A class, `this`, `new` or a member access, which desugaring removes.
    NotLowered,
    /// An instruction outside the body of a function.
    NoInstructionScope,
    /// The labels or the names of synthetic locals have run out.
    LimitExceeded,
}

/// An error of code generation: what went wrong, and where in the source.
#[derive(Debug, Clone, Copy, PartialEq, Eq, Structural)]
pub struct CodegenError {
    pub kind: CodegenErrorKind,
    pub span: Span,
}

impl CodegenErrorKind {
    /// The kinds that name a construct of the language which code
    /// generation does not implement.
    pub open spec fn unsupported(self) -> bool {
        self == CodegenErrorKind::UnsupportedOperator || self
            == CodegenErrorKind::UnsupportedOperandType || self
            == CodegenErrorKind::UnsupportedLiteral || self
            == CodegenErrorKind::UnsupportedAnnotation
    }

    /// Whether the error names a construct that is not implemented, rather
    /// than a tree that breaks the rules.
    pub fn is_unsupported(&self) -> (b: bool)
        ensures
            b == self.unsupported(),
    {
        match self {
            CodegenErrorKind::UnsupportedOperator => true,
            CodegenErrorKind::UnsupportedOperandType => true,
            CodegenErrorKind::UnsupportedLiteral => true,
            CodegenErrorKind::UnsupportedAnnotation => true,
            _ => false,
        }
    }

    /// The text of `description`.
    pub open spec fn description_text(self) -> Seq<char> {
        match self {
            CodegenErrorKind::UnsupportedOperator => "operator is not implemented for this type"@,
            CodegenErrorKind::UnsupportedOperandType => "operand type is not implemented"@,
            CodegenErrorKind::UnsupportedLiteral => "literal is not implemented"@,
            CodegenErrorKind::UnsupportedAnnotation => "annotation needs a string literal"@,
            CodegenErrorKind::InvalidCallTarget => "call target is not a name"@,
            CodegenErrorKind::InvalidAssignmentTarget => "assignment target is not assignable"@,
            CodegenErrorKind::UndefinedSymbol => "name has no declaration"@,
            CodegenErrorKind::AlreadyDefined => "name is already defined"@,
            CodegenErrorKind::NotLowered => "construct must be desugared first"@,
            CodegenErrorKind::NoInstructionScope => "instruction outside a function"@,
            CodegenErrorKind::LimitExceeded => "too many labels or synthetic locals"@,
        }
    }

    /// A short description of the kind.
    pub fn description(&self) -> (text: String)
        ensures
            text@ == self.description_text(),
    {
        match self {
            CodegenErrorKind::UnsupportedOperator => String::from_str(
                "operator is not implemented for this type",
            ),
            CodegenErrorKind::UnsupportedOperandType => String::from_str(
                "operand type is not implemented",
            ),
            CodegenErrorKind::UnsupportedLiteral => String::from_str("literal is not implemented"),
            CodegenErrorKind::UnsupportedAnnotation => String::from_str(
                "annotation needs a string literal",
            ),
            CodegenErrorKind::InvalidCallTarget => String::from_str("call target is not a name"),
            CodegenErrorKind::InvalidAssignmentTarget => String::from_str(
                "assignment target is not assignable",
            ),
            CodegenErrorKind::UndefinedSymbol => String::from_str("name has no declaration"),
            CodegenErrorKind::AlreadyDefined => String::from_str("name is already defined"),
            CodegenErrorKind::NotLowered => String::from_str("construct must be desugared first"),
            CodegenErrorKind::NoInstructionScope => String::from_str("instruction outside a function"),
            CodegenErrorKind::LimitExceeded => String::from_str("too many labels or synthetic locals"),
        }
    }
}

impl CodegenError {
    /// The error of kind `kind` at `span`.
    pub open spec fn at(kind: CodegenErrorKind, span: Span) -> CodegenError {
        CodegenError { kind, span }
    }

    /// The error of kind `kind` at `span`.
    pub fn new(kind: CodegenErrorKind, span: Span) -> (e: CodegenError)
        ensures
            e == CodegenError::at(kind, span),
    {
        CodegenError { kind, span }
    }

    /// A short description of what went wrong.
    pub fn description(&self) -> (text: String)
        ensures
            text@ == self.kind.description_text(),
    {
        self.kind.description()
    }
}

} // verus!
