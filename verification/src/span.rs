use vstd::prelude::*;

verus! {

/// A position in a source file: a handle on the file and the half-open byte
/// range `start..end` inside it. A synthetic span marks a node that a compiler
/// pass invented; it points at no source text.
#[derive(Debug, Clone, Copy, PartialEq, Eq, Hash, Structural)]
pub struct Span {
    pub file: usize,
    pub start: usize,
    pub end: usize,
    pub synthetic: bool,
}

impl Span {
    /// The span `start..end` of the file `file`.
    pub fn new(file: usize, start: usize, end: usize) -> (span: Span)
        ensures
            span == (Span { file, start, end, synthetic: false }),
    {
        Span { file, start, end, synthetic: false }
    }

    /// The span of every node that has no source text.
    pub open spec fn synthetic_span() -> Span {
        Span { file: 0, start: 0, end: 0, synthetic: true }
    }

    /// The synthetic span.
    pub fn synthetic() -> (span: Span)
        ensures
            span == Span::synthetic_span(),
            span.synthetic,
    {
        Span { file: 0, start: 0, end: 0, synthetic: true }
    }

    /// Whether a pass invented the node that carries this span.
    pub fn is_synthetic(&self) -> (b: bool)
        ensures
            b == self.synthetic,
    {
        self.synthetic
    }
}

} // verus!
