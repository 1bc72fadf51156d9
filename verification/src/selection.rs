//! The selection cursor over the rows that are currently shown.
//!
//! The cursor keeps its position, not its item: when the rows beneath it
//! change, it stays on the same index (clamped to the new length), so the
//! item it points at may be another one afterwards.

use vstd::prelude::*;

verus! {

/// A cursor over `len` rows.
pub struct SelectionModel {
    pub cursor: Option<nat>,
    pub len: nat,
}

impl SelectionModel {
    /// No row is selected exactly when there is no row; otherwise the cursor
    /// is the index of a row.
    pub open spec fn wf(self) -> bool {
        match self.cursor {
            None => self.len == 0,
            Some(i) => i < self.len,
        }
    }

    /// The cursor over no rows.
    pub open spec fn empty() -> SelectionModel {
        SelectionModel { cursor: None, len: 0 }
    }

    /// One row down, staying on the last row.
    pub open spec fn next(self) -> SelectionModel {
        match self.cursor {
            Some(i) if i + 1 < self.len => SelectionModel { cursor: Some(i + 1), len: self.len },
            _ => self,
        }
    }

    /// One row up, staying on the first row.
    pub open spec fn previous(self) -> SelectionModel {
        match self.cursor {
            Some(i) if i > 0 => SelectionModel { cursor: Some((i - 1) as nat), len: self.len },
            _ => self,
        }
    }

    /// The cursor after the number of rows became `new_len`: none over no
    /// rows, the last row if the old index is past the end, the first row if
    /// nothing was selected, and the old index otherwise.
    pub open spec fn reclamp(self, new_len: nat) -> SelectionModel {
        let cursor = if new_len == 0 {
            None
        } else {
            match self.cursor {
                None => Some(0nat),
                Some(i) => if i >= new_len {
                    Some((new_len - 1) as nat)
                } else {
                    Some(i)
                },
            }
        };
        SelectionModel { cursor, len: new_len }
    }
}

/// Holds the cursor and the number of rows it ranges over.
#[derive(Clone, Copy, Debug)]
pub struct SelectionController {
    cursor: Option<usize>,
    len: usize,
}

impl View for SelectionController {
    type V = SelectionModel;

    closed spec fn view(&self) -> SelectionModel {
        SelectionModel {
            cursor: match self.cursor {
                None => None,
                Some(i) => Some(i as nat),
            },
            len: self.len as nat,
        }
    }
}

impl SelectionController {
    /// A cursor over no rows.
    pub fn new() -> (s: SelectionController)
        ensures
            s@ == SelectionModel::empty(),
            s@.wf(),
    {
        SelectionController { cursor: None, len: 0 }
    }

    /// Moves one row down; at the last row nothing changes.
    pub fn next(&mut self)
        requires
            old(self)@.wf(),
        ensures
            final(self)@ == old(self)@.next(),
            final(self)@.wf(),
    {
        match self.cursor {
            Some(i) => {
                if i + 1 < self.len {
                    self.cursor = Some(i + 1);
                }
            },
            None => {},
        }
    }

    /// Moves one row up; at the first row nothing changes.
    pub fn previous(&mut self)
        requires
            old(self)@.wf(),
        ensures
            final(self)@ == old(self)@.previous(),
            final(self)@.wf(),
    {
        match self.cursor {
            Some(i) => {
                if i > 0 {
                    self.cursor = Some(i - 1);
                }
            },
            None => {},
        }
    }

    /// The selected index, if there is a row.
    pub fn current(&self) -> (index: Option<usize>)
        ensures
            match index {
                None => self@.cursor is None,
                Some(i) => self@.cursor == Some(i as nat),
            },
    {
        self.cursor
    }

    /// The number of rows the cursor ranges over.
    pub fn len(&self) -> (len: usize)
        ensures
            len == self@.len,
    {
        self.len
    }

    /// Adapts the cursor to a new number of rows. Establishes validity
    /// whatever the cursor was before.
    pub fn reclamp(&mut self, new_len: usize)
        ensures
            final(self)@ == old(self)@.reclamp(new_len as nat),
            final(self)@.wf(),
    {
        if new_len == 0 {
            self.cursor = None;
        } else {
            match self.cursor {
                None => {
                    self.cursor = Some(0);
                },
                Some(i) => {
                    if i >= new_len {
                        self.cursor = Some(new_len - 1);
                    }
                },
            }
        }
        self.len = new_len;
    }
}

/// Moving the cursor keeps it valid.
pub proof fn lemma_moves_keep_cursor_valid(s: SelectionModel)
    requires
        s.wf(),
    ensures
        s.next().wf(),
        s.previous().wf(),
        s.next().len == s.len,
        s.previous().len == s.len,
{
}

/// Reclamping yields a valid cursor from any cursor, and keeps an index that
/// is still in range.
pub proof fn lemma_reclamp_is_valid(s: SelectionModel, new_len: nat)
    ensures
        s.reclamp(new_len).wf(),
        s.reclamp(new_len).len == new_len,
        new_len == 0 ==> s.reclamp(new_len).cursor is None,
        s.cursor matches Some(i) ==> (i < new_len ==> s.reclamp(new_len).cursor == Some(i)),
        s.cursor matches Some(i) ==> (i >= new_len && new_len > 0 ==> s.reclamp(new_len).cursor
            == Some((new_len - 1) as nat)),
{
}

} // verus!
