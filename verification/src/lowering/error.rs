use crate::span::Span;
use vstd::prelude::*;
use vstd::string::StringExecFns;

verus! {

/// What stopped desugaring.
#[derive(Debug, Clone, Copy, PartialEq, Eq, Structural)]
pub enum LoweringErrorKind {
    /// `this` where no class is being desugared.
    ThisOutsideClass,
    /// A class of which the bindings know no layout.
    UnknownClass,
    /// A field that the layout of the class does not hold.
    UnknownField,
    /// A member access that is not `this.name`.
    InvalidMemberAccess,
    /// `new` in front of something that is not the call of a name.
    InvalidNewTarget,
}

/// An error of desugaring: what went wrong, and where in the source.
#[derive(Debug, Clone, Copy, PartialEq, Eq, Structural)]
pub struct LoweringError {
    pub kind: LoweringErrorKind,
    pub span: Span,
}

impl LoweringErrorKind {
    /// The text of `description`.
    pub open spec fn description_text(self) -> Seq<char> {
        match self {
            LoweringErrorKind::ThisOutsideClass => "this outside a class"@,
            LoweringErrorKind::UnknownClass => "class has no layout"@,
            LoweringErrorKind::UnknownField => "class has no such field"@,
            LoweringErrorKind::InvalidMemberAccess => "member access is not a field of this"@,
            LoweringErrorKind::InvalidNewTarget => "new needs the call of a class"@,
        }
    }

    /// A short description of the kind.
    pub fn description(&self) -> (text: String)
        ensures
            text@ == self.description_text(),
    {
        match self {
            LoweringErrorKind::ThisOutsideClass => String::from_str("this outside a class"),
            LoweringErrorKind::UnknownClass => String::from_str("class has no layout"),
            LoweringErrorKind::UnknownField => String::from_str("class has no such field"),
            LoweringErrorKind::InvalidMemberAccess => String::from_str(
                "member access is not a field of this",
            ),
            LoweringErrorKind::InvalidNewTarget => String::from_str("new needs the call of a class"),
        }
    }
}

impl LoweringError {
    /// The error of kind `kind` at `span`.
    pub open spec fn at(kind: LoweringErrorKind, span: Span) -> LoweringError {
        LoweringError { kind, span }
    }

    /// The error of kind `kind` at `span`.
    pub fn new(kind: LoweringErrorKind, span: Span) -> (e: LoweringError)
        ensures
            e == LoweringError::at(kind, span),
    {
        LoweringError { kind, span }
    }

    /// A short description of what went wrong.
    pub fn description(&self) -> (text: String)
        ensures
            text@ == self.kind.description_text(),
    {
        self.kind.description()
    }
}

} // verus!
