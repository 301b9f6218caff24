use vstd::prelude::*;

verus! {

/// A location in the document: a row and a column, both counted in grapheme
/// clusters, together with the remembered ("sticky") coordinates that
/// vertical movement falls back to.
#[derive(Clone, Copy)]
pub struct Position {
    pub row: usize,
    pub column: usize,
    pub history: PositionHistory,
}

/// The last intentionally chosen coordinates; `column` is the sticky column
/// that vertical moves clamp against the target row's length.
#[derive(Clone, Copy)]
pub struct PositionHistory {
    pub row: usize,
    pub column: usize,
}

impl Position {
    /// A position at the given row and column, with the sticky column set to
    /// the same column.
    pub fn at(row: usize, column: usize) -> (p: Position)
        ensures
            p.row == row,
            p.column == column,
            p.history.row == row,
            p.history.column == column,
    {
        Position { row, column, history: PositionHistory { row, column } }
    }
}

} // verus!
