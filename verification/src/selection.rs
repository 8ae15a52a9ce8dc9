//! The selection state machine used while browsing a help listing: a cursor
//! over the visible rows that wraps around at both ends, or no cursor at
//! all when the calling interface cannot express row navigation.

use vstd::prelude::*;

verus! {

/// The selection state inside a help action.
#[derive(Debug, Clone, Copy, PartialEq, Eq, Structural)]
pub enum Selection {
    /// A cursor over `bound` visible rows; `row` is always below `bound`.
    Cursor { row: usize, bound: usize },
    /// No cursor: the interface cannot navigate rows, every row is shown
    /// expanded. Terminal: no transition changes it.
    Unbounded,
}

impl Default for Selection {
    /// Until a bounded listing is computed, no cursor exists.
    fn default() -> (r: Self)
        ensures
            r == Selection::Unbounded,
    {
        Selection::Unbounded
    }
}

impl Selection {
    /// The cursor invariant: a cursor row is always inside its bound (so a
    /// cursor is never constructed over an empty listing).
    pub open spec fn wf(self) -> bool {
        self matches Selection::Cursor { row, bound } ==> row < bound
    }

    /// Moving the cursor down one row, wrapping from the last row to the
    /// first.
    pub open spec fn spec_advance(self) -> Selection {
        match self {
            Selection::Cursor { row, bound } => Selection::Cursor {
                row: if row + 1 == bound {
                    0
                } else {
                    (row + 1) as usize
                },
                bound,
            },
            Selection::Unbounded => Selection::Unbounded,
        }
    }

    /// Moving the cursor up one row, wrapping from the first row to the
    /// last.
    pub open spec fn spec_retreat(self) -> Selection {
        match self {
            Selection::Cursor { row, bound } => Selection::Cursor {
                row: if row == 0 {
                    (bound - 1) as usize
                } else {
                    (row - 1) as usize
                },
                bound,
            },
            Selection::Unbounded => Selection::Unbounded,
        }
    }

    /// Runtime counterpart of [`Selection::spec_advance`]: total and free
    /// of panics under the cursor invariant.
    pub fn advance(self) -> (r: Self)
        requires
            self.wf(),
        ensures
            r == self.spec_advance(),
            r.wf(),
    {
        match self {
            Selection::Cursor { row, bound } => {
                // row + 1 modulo bound, knowing row < bound
                if row + 1 == bound {
                    Selection::Cursor { row: 0, bound }
                } else {
                    Selection::Cursor { row: row + 1, bound }
                }
            }
            Selection::Unbounded => Selection::Unbounded,
        }
    }

    /// Runtime counterpart of [`Selection::spec_retreat`]: total and free
    /// of panics under the cursor invariant.
    pub fn retreat(self) -> (r: Self)
        requires
            self.wf(),
        ensures
            r == self.spec_retreat(),
            r.wf(),
    {
        match self {
            Selection::Cursor { row, bound } => {
                if row != 0 {
                    Selection::Cursor { row: row - 1, bound }
                } else {
                    Selection::Cursor { row: bound - 1, bound }
                }
            }
            Selection::Unbounded => Selection::Unbounded,
        }
    }
}

} // verus!
