//! The selection of a list: which row is highlighted, if any.

use vstd::prelude::*;

verus! {

/// The selection of a list. The row it names may lie below the end of the
/// list it belongs to: whoever reads it decides what that means.
#[derive(Clone, Copy, Debug, PartialEq, Eq)]
pub struct Cursor {
    pub selected: Option<usize>,
}

impl Cursor {
    /// The selection one row further down: the first row where nothing was
    /// selected, and the same row where the row numbers end.
    pub open spec fn moved_down(self) -> Cursor {
        Cursor {
            selected: Some(
                match self.selected {
                    None => 0usize,
                    Some(row) => if row < usize::MAX {
                        (row + 1) as usize
                    } else {
                        row
                    },
                },
            ),
        }
    }

    /// The selection one row further up: the first row stays, and where
    /// nothing was selected the last row number there is.
    pub open spec fn moved_up(self) -> Cursor {
        Cursor {
            selected: Some(
                match self.selected {
                    None => usize::MAX,
                    Some(row) => if row > 0 {
                        (row - 1) as usize
                    } else {
                        row
                    },
                },
            ),
        }
    }

    /// Returns a cursor that selects nothing.
    pub fn new() -> (r: Cursor)
        ensures
            r.selected.is_none(),
    {
        Cursor { selected: None }
    }

    /// Returns the selected row, if any.
    pub fn selected(&self) -> (r: Option<usize>)
        ensures
            r == self.selected,
    {
        self.selected
    }

    /// Selects the given row, or nothing.
    pub fn select(&mut self, index: Option<usize>)
        ensures
            final(self).selected == index,
    {
        self.selected = index;
    }

    /// Selects the first row.
    pub fn select_first(&mut self)
        ensures
            final(self).selected == Some(0usize),
    {
        self.selected = Some(0);
    }

    /// Moves the selection one row down.
    pub fn select_next(&mut self)
        ensures
            *final(self) == old(self).moved_down(),
    {
        let next: usize = match self.selected {
            None => 0,
            Some(row) => if row < usize::MAX {
                row + 1
            } else {
                row
            },
        };
        self.selected = Some(next);
    }

    /// Moves the selection one row up.
    pub fn select_previous(&mut self)
        ensures
            *final(self) == old(self).moved_up(),
    {
        let previous: usize = match self.selected {
            None => usize::MAX,
            Some(row) => if row > 0 {
                row - 1
            } else {
                row
            },
        };
        self.selected = Some(previous);
    }
}

} // verus!
