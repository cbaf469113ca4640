use crate::span::Span;
use vstd::prelude::*;
use vstd::string::StringExecFns;

verus! {

/// A name as the contracts see it: its characters and where it was written.
pub struct IdentView {
    pub span: Span,
    pub value: Seq<char>,
}

/// The name of a declaration: a function, a parameter, a class, a field.
#[derive(Debug, Clone, PartialEq)]
pub struct Ident {
    pub span: Span,
    pub value: String,
}

impl View for Ident {
    type V = IdentView;

    open spec fn view(&self) -> IdentView {
        IdentView { span: self.span, value: self.value@ }
    }
}

impl Ident {
    /// The name `value`, written at `span`.
    pub fn new(value: &'static str, span: Span) -> (ident: Self)
        ensures
            ident@ == (IdentView { span, value: value@ }),
    {
        Self { span, value: String::from_str(value) }
    }

    /// The name `value`, written at `span`.
    pub fn from_string(value: String, span: Span) -> (ident: Self)
        ensures
            ident@ == (IdentView { span, value: value@ }),
    {
        Self { span, value }
    }

    /// A copy with the same characters and span.
    pub fn duplicate(&self) -> (copy: Self)
        ensures
            copy@ == self@,
    {
        Self { span: self.span, value: self.value.clone() }
    }
}

/// A name inside an expression.
#[derive(Debug, Clone, PartialEq)]
pub struct Identifier {
    pub span: Span,
    pub value: String,
}

impl View for Identifier {
    type V = IdentView;

    open spec fn view(&self) -> IdentView {
        IdentView { span: self.span, value: self.value@ }
    }
}

impl Identifier {
    /// The name `value`, written at `span`.
    pub fn new(value: &'static str, span: Span) -> (ident: Self)
        ensures
            ident@ == (IdentView { span, value: value@ }),
    {
        Self { span, value: String::from_str(value) }
    }

    /// The name `value`, written at `span`.
    pub fn from_string(value: String, span: Span) -> (ident: Self)
        ensures
            ident@ == (IdentView { span, value: value@ }),
    {
        Self { span, value }
    }

    /// A copy with the same characters and span.
    pub fn duplicate(&self) -> (copy: Self)
        ensures
            copy@ == self@,
    {
        Self { span: self.span, value: self.value.clone() }
    }
}

} // verus!
