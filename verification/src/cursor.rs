//! Selection cursor: an index into the visible service list, clamped after
//! every mutation of that list, moved with wraparound by the operator.

use vstd::prelude::*;

verus! {

/// The cursor is well formed for a visible list of length `visible_len`
/// when it is absent exactly on the empty list and otherwise in bounds.
pub open spec fn cursor_wf(selected: Option<usize>, visible_len: nat) -> bool {
    match selected {
        None => visible_len == 0,
        Some(i) => i < visible_len,
    }
}

/// Where the cursor stands after a forward move over a list of length `len`:
/// one step down, wrapping from the last index to the first; no move at all
/// on an empty list; the first index when nothing was selected.
pub open spec fn next_selected(selected: Option<usize>, len: usize) -> Option<usize> {
    if len == 0 {
        selected
    } else {
        match selected {
            None => Some(0usize),
            Some(i) => if i as int >= len as int - 1 {
                Some(0usize)
            } else {
                Some((i + 1) as usize)
            },
        }
    }
}

/// Where the cursor stands after a backward move: one step up, wrapping from
/// the first index to the last; no move on an empty list.
pub open spec fn previous_selected(selected: Option<usize>, len: usize) -> Option<usize> {
    if len == 0 {
        selected
    } else {
        match selected {
            None => Some(0usize),
            Some(i) => if i == 0 {
                Some((len - 1) as usize)
            } else {
                Some((i - 1) as usize)
            },
        }
    }
}

/// Where the cursor stands after the visible list mutated to length `len`:
/// absent on the empty list; snapped to the last index when it pointed past
/// the end; pulled onto the list when it was absent; unchanged otherwise.
pub open spec fn reclamped_selected(selected: Option<usize>, len: usize) -> Option<usize> {
    if len == 0 {
        None
    } else {
        match selected {
            None => Some(0usize),
            Some(i) => if i >= len {
                Some((len - 1) as usize)
            } else {
                Some(i)
            },
        }
    }
}

/// Where the cursor stands after the view was rebuilt from scratch (for
/// example by a filter toggle): the top of the new list, or absent when the
/// new list is empty.
pub open spec fn reset_selected(len: usize) -> Option<usize> {
    if len == 0 {
        None
    } else {
        Some(0usize)
    }
}

/// An index into the currently visible service list, or `None` when that
/// list is empty. The position is positional only: it does not follow a
/// service by name across refreshes.
#[derive(Clone, Copy, PartialEq, Eq, Structural, Debug)]
pub struct SelectionCursor {
    pub selected: Option<usize>,
}

impl SelectionCursor {
    /// A cursor for an empty visible list.
    pub fn new() -> (r: Self)
        ensures
            r.selected == Option::<usize>::None,
    {
        SelectionCursor { selected: None }
    }

    /// Move one entry down, wrapping to the top; no-op on an empty list.
    pub fn next(&mut self, visible_len: usize)
        ensures
            final(self).selected == next_selected(old(self).selected, visible_len),
            visible_len > 0 ==> cursor_wf(final(self).selected, visible_len as nat),
    {
        if visible_len == 0 {
            return;
        }
        let i: usize = match self.selected {
            Some(i) => if i >= visible_len - 1 {
                0
            } else {
                i + 1
            },
            None => 0,
        };
        self.selected = Some(i);
    }

    /// Move one entry up, wrapping to the bottom; no-op on an empty list.
    pub fn previous(&mut self, visible_len: usize)
        ensures
            final(self).selected == previous_selected(old(self).selected, visible_len),
            visible_len > 0 && cursor_wf(old(self).selected, visible_len as nat) ==> cursor_wf(
                final(self).selected,
                visible_len as nat,
            ),
    {
        if visible_len == 0 {
            return;
        }
        let i: usize = match self.selected {
            Some(i) => if i == 0 {
                visible_len - 1
            } else {
                i - 1
            },
            None => 0,
        };
        self.selected = Some(i);
    }

    /// Re-anchor the cursor after the visible list changed length. Always
    /// leaves the cursor absent exactly on the empty list and otherwise
    /// within bounds.
    pub fn reclamp(&mut self, visible_len: usize)
        ensures
            final(self).selected == reclamped_selected(old(self).selected, visible_len),
            cursor_wf(final(self).selected, visible_len as nat),
    {
        if visible_len == 0 {
            self.selected = None;
        } else {
            match self.selected {
                Some(i) => {
                    if i >= visible_len {
                        self.selected = Some(visible_len - 1);
                    }
                },
                None => {
                    self.selected = Some(0);
                },
            }
        }
    }

    /// Put the cursor at the top of a freshly rebuilt view, or make it
    /// absent when that view is empty.
    pub fn reset(&mut self, visible_len: usize)
        ensures
            final(self).selected == reset_selected(visible_len),
            cursor_wf(final(self).selected, visible_len as nat),
    {
        if visible_len == 0 {
            self.selected = None;
        } else {
            self.selected = Some(0);
        }
    }
}

/// Law: over a non-empty list, one forward move and one backward move are
/// inverse to each other, and both wrap at the boundaries (the forward move
/// takes the last index to the first, the backward move takes the first
/// index to the last).
pub proof fn lemma_next_previous_inverse(selected: Option<usize>, len: usize)
    requires
        len > 0,
        cursor_wf(selected, len as nat),
    ensures
        previous_selected(next_selected(selected, len), len) == selected,
        next_selected(previous_selected(selected, len), len) == selected,
        selected == Some((len - 1) as usize) ==> next_selected(selected, len) == Some(0usize),
        selected == Some(0usize) ==> previous_selected(selected, len) == Some(
            (len - 1) as usize,
        ),
{
}

/// Law: whatever the cursor held before, after `reclamp` for a list of
/// length `len` it is absent exactly when `len == 0` and otherwise holds an
/// index in `[0, len - 1]`.
pub proof fn lemma_reclamp_restores_invariant(selected: Option<usize>, len: usize)
    ensures
        cursor_wf(reclamped_selected(selected, len), len as nat),
{
}

} // verus!
