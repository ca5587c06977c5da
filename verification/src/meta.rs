//! Source positions attached to statements, terminators and declarations.

use vstd::prelude::*;

verus! {

/// A position in a source file: line and column, both starting at one.
#[derive(Debug, Clone, Copy, PartialEq, Eq, Structural)]
pub struct Loc {
    pub line: usize,
    pub col: usize,
}

/// A source span: the region between two positions.
#[derive(Debug, Clone, Copy, PartialEq, Eq, Structural)]
pub struct Span {
    pub beg: Loc,
    pub end: Loc,
}

impl Span {
    /// A placeholder span for synthesized code.
    pub fn dummy() -> (s: Span)
        ensures
            s == (Span { beg: Loc { line: 0, col: 0 }, end: Loc { line: 0, col: 0 } }),
    {
        Span { beg: Loc { line: 0, col: 0 }, end: Loc { line: 0, col: 0 } }
    }
}

} // verus!
