//! Positions in a source text.

use vstd::prelude::*;
use vstd::std_specs::convert::FromSpecImpl;

verus! {

/// A zero-based location in a source text, as the parser reports it.
#[derive(Clone, Copy, Debug, PartialEq, Eq, Structural)]
pub struct Point {
    pub row: u32,
    pub column: u32,
}

/// A zero-based location in a source text, as a dumped tree carries it.
#[derive(Clone, Copy, Debug, PartialEq, Eq, Structural)]
pub struct PatternPos {
    pub line: u32,
    pub column: u32,
}

impl Point {
    /// The dumped position that shows this point: the row becomes the line,
    /// the column stays.
    pub open spec fn to_pos(self) -> PatternPos {
        PatternPos { line: self.row, column: self.column }
    }
}

impl From<Point> for PatternPos {
    fn from(p: Point) -> (pos: PatternPos)
        ensures
            pos == p.to_pos(),
    {
        PatternPos { line: p.row, column: p.column }
    }
}

impl FromSpecImpl<Point> for PatternPos {
    open spec fn obeys_from_spec() -> bool {
        true
    }

    open spec fn from_spec(p: Point) -> PatternPos {
        p.to_pos()
    }
}

} // verus!
