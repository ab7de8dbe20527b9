//! Source positions: a point in the input and a range of it.

use vstd::prelude::*;

verus! {

/// A point in the source input, as a line and a column.
#[derive(PartialEq, Eq, Structural, Clone, Copy, Debug)]
pub struct SrcLoc {
    pub line: usize,
    pub column: usize,
}

impl SrcLoc {
    /// Creates the location at the given line and column.
    pub fn new(line: usize, column: usize) -> (r: SrcLoc)
        ensures
            r.line == line,
            r.column == column,
    {
        SrcLoc { line, column }
    }

    /// The line of this location.
    pub fn line(&self) -> (r: usize)
        ensures
            r == self.line,
    {
        self.line
    }

    /// The column of this location.
    pub fn column(&self) -> (r: usize)
        ensures
            r == self.column,
    {
        self.column
    }
}

/// A range of the source input: the byte offsets `start..end` and the
/// location at which the range begins.
///
/// Nothing here checks that the offsets are ordered or that the location
/// matches them: that is up to the lexer that builds the span.
#[derive(PartialEq, Eq, Structural, Clone, Copy, Debug)]
pub struct SrcSpan {
    pub loc: SrcLoc,
    pub start: usize,
    pub end: usize,
}

impl SrcSpan {
    /// Creates the span of the bytes `start..end` beginning at `loc`.
    pub fn new(loc: SrcLoc, start: usize, end: usize) -> (r: SrcSpan)
        ensures
            r.loc == loc,
            r.start == start,
            r.end == end,
    {
        SrcSpan { loc, start, end }
    }

    /// The location at which this span begins.
    pub fn loc(&self) -> (r: &SrcLoc)
        ensures
            *r == self.loc,
    {
        &self.loc
    }

    /// The offset of the first byte of this span.
    pub fn start(&self) -> (r: usize)
        ensures
            r == self.start,
    {
        self.start
    }

    /// The offset just past the last byte of this span.
    pub fn end(&self) -> (r: usize)
        ensures
            r == self.end,
    {
        self.end
    }
}

} // verus!
