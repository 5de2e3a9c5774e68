//! The grid cursor.

use vstd::prelude::*;

verus! {

/// The insertion point of the grid, addressed relative to the visible
/// viewport. `column` may equal the column capacity, in which case the next
/// printed character wraps to the following line first; `wrap_pending`
/// records exactly that state.
#[derive(Clone, Copy, Debug, PartialEq, Eq, Structural)]
pub struct Cursor {
    /// Viewport-relative row of the insertion point.
    pub line: usize,
    /// Column of the insertion point; equals the column capacity when a wrap
    /// is pending.
    pub column: usize,
    /// Whether the cursor sits past the last column, so that the next
    /// printed character wraps first.
    pub wrap_pending: bool,
}

impl Cursor {
    /// A cursor is well formed for the given capacities when it addresses a
    /// viewport position and its wrap flag mirrors its column.
    pub open spec fn wf(self, max_row: int, max_col: int) -> bool {
        &&& (self.line as int) < max_row
        &&& (self.column as int) <= max_col
        &&& self.wrap_pending == ((self.column as int) == max_col)
    }

    /// The home position: top-left corner, no wrap pending.
    pub open spec fn home_spec() -> Cursor {
        Cursor { line: 0, column: 0, wrap_pending: false }
    }

    /// Builds a cursor at the home position.
    pub fn home() -> (r: Cursor)
        ensures
            r == Cursor::home_spec(),
    {
        Cursor { line: 0, column: 0, wrap_pending: false }
    }
}

} // verus!
