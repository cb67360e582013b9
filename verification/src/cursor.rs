//! A wrap-around selection over a list of rows.

use vstd::arithmetic::div_mod::{lemma_add_mod_noop, lemma_fundamental_div_mod, lemma_small_mod};
use vstd::prelude::*;

verus! {

/// The selected row of a list that currently has `length` rows.
///
/// A cursor is well formed when `index` names a row of the list, and is absent
/// exactly when the list is empty. Every operation below accepts any cursor and
/// returns a well-formed one.
#[derive(Clone, Copy, Debug, PartialEq, Eq)]
pub struct SelectionCursor {
    pub index: Option<usize>,
    pub length: usize,
}

impl SelectionCursor {
    /// `index` is within the list, and absent only when the list is empty.
    pub open spec fn wf(self) -> bool {
        match self.index {
            Some(i) => i < self.length,
            None => self.length == 0,
        }
    }

    /// The cursor one row further down, wrapping from the last row to the first.
    /// A cursor without a selection lands on the first row.
    pub open spec fn spec_next(self) -> SelectionCursor {
        if self.length == 0 {
            SelectionCursor { index: None, length: 0 }
        } else {
            let row = match self.index {
                Some(i) => (i + 1) % (self.length as int),
                None => 0,
            };
            SelectionCursor { index: Some(row as usize), length: self.length }
        }
    }

    /// The cursor one row further up, wrapping from the first row to the last.
    /// A cursor without a selection lands on the first row.
    pub open spec fn spec_previous(self) -> SelectionCursor {
        if self.length == 0 {
            SelectionCursor { index: None, length: 0 }
        } else {
            let row = match self.index {
                Some(i) => (i + self.length - 1) % (self.length as int),
                None => 0,
            };
            SelectionCursor { index: Some(row as usize), length: self.length }
        }
    }

    /// `spec_next` applied `steps` times.
    pub open spec fn spec_forward(self, steps: nat) -> SelectionCursor
        decreases steps,
    {
        if steps == 0 {
            self
        } else {
            self.spec_next().spec_forward((steps - 1) as nat)
        }
    }

    /// The cursor over a list that now has `length` rows: the selection stays
    /// where it was if that row still exists, else moves to the last row; an
    /// absent selection becomes the first row.
    pub open spec fn spec_resized(self, length: usize) -> SelectionCursor {
        if length == 0 {
            SelectionCursor { index: None, length: 0 }
        } else {
            let row = match self.index {
                Some(i) => if i < length { i } else { (length - 1) as usize },
                None => 0,
            };
            SelectionCursor { index: Some(row), length }
        }
    }

    /// The cursor on the first row of a list of `length` rows.
    pub open spec fn new_spec(length: usize) -> SelectionCursor {
        SelectionCursor { index: if length == 0 { None } else { Some(0usize) }, length }
    }

    /// A cursor on the first row of a list of `length` rows.
    pub fn new(length: usize) -> (cursor: SelectionCursor)
        ensures
            cursor == SelectionCursor::new_spec(length),
            cursor.wf(),
    {
        if length == 0 {
            SelectionCursor { index: None, length }
        } else {
            SelectionCursor { index: Some(0), length }
        }
    }

    /// The selected row, if the list has one.
    pub fn selected(&self) -> (row: Option<usize>)
        ensures
            row == self.index,
    {
        self.index
    }

    /// Moves the selection one row down, wrapping around; does nothing on an
    /// empty list.
    pub fn next(&mut self)
        ensures
            *final(self) == old(self).spec_next(),
            final(self).wf(),
    {
        if self.length == 0 {
            *self = SelectionCursor { index: None, length: 0 };
        } else {
            let length: usize = self.length;
            let row: usize = match self.index {
                Some(i) => {
                    let at: usize = i % length;
                    proof {
                        lemma_add_mod_noop(i as int, 1, length as int);
                        if length > 1 {
                            lemma_small_mod(1, length as nat);
                        }
                        if at + 1 < length {
                            lemma_small_mod((at + 1) as nat, length as nat);
                        } else {
                            lemma_mod_wraps(0, length as int);
                        }
                    }
                    if at + 1 == length {
                        0
                    } else {
                        at + 1
                    }
                },
                None => 0,
            };
            *self = SelectionCursor { index: Some(row), length };
        }
    }

    /// Moves the selection one row up, wrapping around; does nothing on an
    /// empty list.
    pub fn previous(&mut self)
        ensures
            *final(self) == old(self).spec_previous(),
            final(self).wf(),
    {
        if self.length == 0 {
            *self = SelectionCursor { index: None, length: 0 };
        } else {
            let length: usize = self.length;
            let row: usize = match self.index {
                Some(i) => {
                    let at: usize = i % length;
                    proof {
                        lemma_add_mod_noop(i as int, length - 1, length as int);
                        lemma_small_mod((length - 1) as nat, length as nat);
                        if at > 0 {
                            lemma_mod_wraps(at as int - 1, length as int);
                        }
                    }
                    if at == 0 {
                        length - 1
                    } else {
                        at - 1
                    }
                },
                None => 0,
            };
            *self = SelectionCursor { index: Some(row), length };
        }
    }

    /// Fits the cursor to a list that now has `length` rows.
    pub fn resize(&mut self, length: usize)
        ensures
            *final(self) == old(self).spec_resized(length),
            final(self).wf(),
    {
        if length == 0 {
            *self = SelectionCursor { index: None, length: 0 };
        } else {
            let row: usize = match self.index {
                Some(i) => if i < length { i } else { length - 1 },
                None => 0,
            };
            *self = SelectionCursor { index: Some(row), length };
        }
    }
}

/// `(r + m) % m == r` for a remainder `r` of `m`.
proof fn lemma_mod_wraps(r: int, m: int)
    requires
        0 <= r < m,
    ensures
        (r + m) % m == r,
{
    lemma_fundamental_div_mod(r + m, m);
    assert((r + m) % m == r) by (nonlinear_arith)
        requires
            0 <= r < m,
    ;
}

/// Moving a cursor, in either direction, leaves it well formed and on the
/// same list.
pub proof fn lemma_moves_keep_cursor_well_formed(cursor: SelectionCursor)
    ensures
        cursor.spec_next().wf(),
        cursor.spec_previous().wf(),
        cursor.spec_next().length == cursor.length,
        cursor.spec_previous().length == cursor.length,
{
    if cursor.length > 0 {
        let length = cursor.length as int;
        if cursor.index is Some {
            let i = cursor.index->0 as int;
            vstd::arithmetic::div_mod::lemma_mod_bound(i + 1, length);
            vstd::arithmetic::div_mod::lemma_mod_bound(i + length - 1, length);
        }
    }
}

/// Moving forward from row `i` by `steps` rows ends on row `(i + steps) % length`.
pub proof fn lemma_forward_row(cursor: SelectionCursor, steps: nat)
    requires
        cursor.wf(),
        cursor.length > 0,
    ensures
        cursor.spec_forward(steps).length == cursor.length,
        cursor.spec_forward(steps).index == Some(
            ((cursor.index->0 + steps) % (cursor.length as int)) as usize,
        ),
    decreases steps,
{
    let length = cursor.length as int;
    let i = cursor.index->0 as int;
    if steps == 0 {
        lemma_small_mod(i as nat, length as nat);
    } else {
        let stepped = cursor.spec_next();
        lemma_forward_row(stepped, (steps - 1) as nat);
        lemma_add_mod_noop(i + 1, steps - 1, length);
        vstd::arithmetic::div_mod::lemma_mod_twice(i + 1, length);
        lemma_add_mod_noop((i + 1) % length, steps - 1, length);
        vstd::arithmetic::div_mod::lemma_mod_bound(i + 1, length);
    }
}

/// Moving forward once for every row of a non-empty list returns the cursor
/// to where it started.
pub proof fn lemma_full_turn_returns(cursor: SelectionCursor)
    requires
        cursor.wf(),
        cursor.length > 0,
    ensures
        cursor.spec_forward(cursor.length as nat) == cursor,
{
    lemma_forward_row(cursor, cursor.length as nat);
    lemma_mod_wraps(cursor.index->0 as int, cursor.length as int);
}

/// Moving up from the first row of a non-empty list lands on the last row.
pub proof fn lemma_previous_from_first_is_last(cursor: SelectionCursor)
    requires
        cursor.wf(),
        cursor.length > 0,
        cursor.index == Some(0usize),
    ensures
        cursor.spec_previous().index == Some((cursor.length - 1) as usize),
        cursor.spec_previous().length == cursor.length,
{
    lemma_small_mod((cursor.length - 1) as nat, cursor.length as nat);
}

} // verus!
