use vstd::prelude::*;

verus! {

/// A zero-based position: a row and a column.
///
/// In a buffer it names a place in the text, where the column may equal the
/// length of the line (the place behind its last character). On a screen it
/// names a cell.
#[derive(Clone, Copy, Debug, PartialEq, Eq, Structural)]
pub struct Cursor {
    pub row: usize,
    pub col: usize,
}

impl Cursor {
    /// The position at `row` and `col`.
    pub fn new(row: usize, col: usize) -> (c: Cursor)
        ensures
            c.row == row,
            c.col == col,
    {
        Cursor { row, col }
    }
}

} // verus!
