//! The selectable, paginated list state machine.
//!
//! A `SelectableList` owns only the length of the currently filtered entry
//! set and the current selection; the entries themselves stay with the tool.
//! Every tool shares this one pagination and selection algorithm.

use vstd::prelude::*;

verus! {

/// A key press, as the engine models it.  The host translates terminal
/// events into this form before handing them to the library.
#[derive(Clone, Copy, PartialEq, Eq, Structural, Debug)]
pub enum Key {
    Char(char),
    Enter,
    Esc,
    Up,
    Down,
    Left,
    Right,
    Backspace,
    Home,
    End,
    Other,
}

/// Selection after replacing the filtered set with one of length `total`.
pub open spec fn reset_selection_spec(total: int) -> Option<usize> {
    if total > 0 {
        Some(0usize)
    } else {
        None
    }
}

/// Selection after moving one step down in a list of length `total`.
pub open spec fn next_selection_spec(sel: Option<usize>, total: int) -> Option<usize> {
    match sel {
        Some(i) => if i + 1 < total {
            Some((i + 1) as usize)
        } else {
            Some(i)
        },
        None => if total > 0 {
            Some(0usize)
        } else {
            None
        },
    }
}

/// Selection after moving one step up.
pub open spec fn prev_selection_spec(sel: Option<usize>) -> Option<usize> {
    match sel {
        Some(i) => if i > 0 {
            Some((i - 1) as usize)
        } else {
            Some(i)
        },
        None => None,
    }
}

/// Selection after paging forward by `page` in a list of length `total`:
/// clamped to the last index; from no selection, a non-empty list selects
/// its first entry.
pub open spec fn page_forward_spec(sel: Option<usize>, total: int, page: int) -> Option<usize> {
    let cap = if total > 0 {
        total - 1
    } else {
        0
    };
    match sel {
        Some(i) => Some(
            (if i + page < cap {
                i + page
            } else {
                cap
            }) as usize,
        ),
        None => if total > 0 {
            Some(0usize)
        } else {
            None
        },
    }
}

/// Selection after paging backward by `page`: clamped to the first index;
/// no selection stays none.
pub open spec fn page_backward_spec(sel: Option<usize>, page: int) -> Option<usize> {
    match sel {
        Some(i) => Some(
            (if i - page > 0 {
                i - page
            } else {
                0
            }) as usize,
        ),
        None => None,
    }
}

/// The list state machine: current filtered length and selection.
pub struct SelectableList {
    total: usize,
    selection: Option<usize>,
}

impl SelectableList {
    /// The selection always stays inside the list.
    pub open spec fn wf(self) -> bool {
        match self.spec_selection() {
            Some(i) => i < self.spec_total(),
            None => true,
        }
    }

    pub closed spec fn spec_total(self) -> usize {
        self.total
    }

    pub closed spec fn spec_selection(self) -> Option<usize> {
        self.selection
    }

    /// An empty list with nothing selected.
    pub fn new() -> (r: SelectableList)
        ensures
            r.wf(),
            r.spec_total() == 0,
            r.spec_selection() is None,
    {
        SelectableList { total: 0, selection: None }
    }

    pub fn total(&self) -> (r: usize)
        ensures
            r == self.spec_total(),
    {
        self.total
    }

    pub fn selection(&self) -> (r: Option<usize>)
        ensures
            r == self.spec_selection(),
    {
        self.selection
    }

    /// Replace the filtered set: the first entry of a non-empty set is
    /// selected, an empty set clears the selection.
    pub fn reset(&mut self, new_total: usize)
        ensures
            final(self).wf(),
            final(self).spec_total() == new_total,
            final(self).spec_selection() == reset_selection_spec(new_total as int),
            final(self).spec_selection() is Some <==> new_total > 0,
    {
        self.total = new_total;
        self.selection = if new_total > 0 {
            Some(0)
        } else {
            None
        };
    }

    /// Move the selection one entry down; no wrap-around at the end.  With
    /// no selection, a non-empty list selects its first entry.
    pub fn select_next(&mut self)
        requires
            old(self).wf(),
        ensures
            final(self).wf(),
            final(self).spec_total() == old(self).spec_total(),
            final(self).spec_selection() == next_selection_spec(
                old(self).spec_selection(),
                old(self).spec_total() as int,
            ),
    {
        match self.selection {
            Some(i) => {
                if i + 1 < self.total {
                    self.selection = Some(i + 1);
                }
            },
            None => {
                if self.total > 0 {
                    self.selection = Some(0);
                }
            },
        }
    }

    /// Move the selection one entry up; no wrap-around at the start.
    pub fn select_prev(&mut self)
        requires
            old(self).wf(),
        ensures
            final(self).wf(),
            final(self).spec_total() == old(self).spec_total(),
            final(self).spec_selection() == prev_selection_spec(old(self).spec_selection()),
    {
        match self.selection {
            Some(i) => {
                if i > 0 {
                    self.selection = Some(i - 1);
                }
            },
            None => {},
        }
    }

    /// Page forward by `page` entries, clamped to the last entry.
    pub fn page_forward(&mut self, page: usize)
        requires
            old(self).wf(),
        ensures
            final(self).wf(),
            final(self).spec_total() == old(self).spec_total(),
            final(self).spec_selection() == page_forward_spec(
                old(self).spec_selection(),
                old(self).spec_total() as int,
                page as int,
            ),
    {
        match self.selection {
            Some(i) => {
                let cap = self.total - 1;
                self.selection = Some(
                    if page < cap - i {
                        i + page
                    } else {
                        cap
                    },
                );
            },
            None => {
                if self.total > 0 {
                    self.selection = Some(0);
                }
            },
        }
    }

    /// Page backward by `page` entries, clamped to the first entry.
    pub fn page_backward(&mut self, page: usize)
        requires
            old(self).wf(),
        ensures
            final(self).wf(),
            final(self).spec_total() == old(self).spec_total(),
            final(self).spec_selection() == page_backward_spec(
                old(self).spec_selection(),
                page as int,
            ),
    {
        match self.selection {
            Some(i) => {
                self.selection = Some(
                    if i > page {
                        i - page
                    } else {
                        0
                    },
                );
            },
            None => {},
        }
    }
}

/// Pagination never leaves the list: paging forward in a non-empty list of
/// length `total` lands strictly below `total`, and paging backward never
/// lands below zero, from every starting selection inside the list.
pub proof fn lemma_pagination_bounds(sel: Option<usize>, total: int, page: int)
    requires
        total > 0,
        sel is Some ==> sel->0 < total,
        page >= 0,
    ensures
        page_forward_spec(sel, total, page) is Some,
        0 <= page_forward_spec(sel, total, page)->0 < total,
        page_backward_spec(sel, page) is Some ==> 0 <= page_backward_spec(sel, page)->0 < total,
{
}

/// After a reset the selection is `Some(0)` exactly when the new set is
/// non-empty, and `None` exactly when it is empty.
pub proof fn lemma_reset_selection(total: int)
    ensures
        total > 0 ==> reset_selection_spec(total) == Some(0usize),
        total <= 0 ==> reset_selection_spec(total) is None,
{
}

/// The shared page-navigation decision: Ctrl-F pages forward, Ctrl-B pages
/// backward, and every other key leaves the selection unchanged.
pub fn handle_page_navigation(
    key: Key,
    ctrl: bool,
    current_selection: Option<usize>,
    total_items: usize,
    page_size: usize,
) -> (r: Option<usize>)
    ensures
        key == Key::Char('f') && ctrl ==> r == page_forward_spec(
            current_selection,
            total_items as int,
            page_size as int,
        ),
        key == Key::Char('b') && ctrl ==> r == page_backward_spec(
            current_selection,
            page_size as int,
        ),
        !(key == Key::Char('f') && ctrl) && !(key == Key::Char('b') && ctrl) ==> r
            == current_selection,
        ((current_selection matches Some(i) && i < total_items) && r matches Some(j)) ==> (
        r->0 < total_items),
{
    match key {
        Key::Char(c) => {
            if c == 'f' && ctrl {
                match current_selection {
                    Some(selected) => {
                        let cap = if total_items > 0 {
                            total_items - 1
                        } else {
                            0
                        };
                        Some(
                            if selected < cap && page_size < cap - selected {
                                selected + page_size
                            } else {
                                cap
                            },
                        )
                    },
                    None => {
                        if total_items > 0 {
                            Some(0)
                        } else {
                            None
                        }
                    },
                }
            } else if c == 'b' && ctrl {
                match current_selection {
                    Some(selected) => Some(
                        if selected > page_size {
                            selected - page_size
                        } else {
                            0
                        },
                    ),
                    None => None,
                }
            } else {
                current_selection
            }
        },
        _ => current_selection,
    }
}

/// The key bindings every tool shares, for the status line.
pub fn common_help_text() -> (r: Vec<&'static str>)
    ensures
        r@.len() == 4,
{
    let mut v: Vec<&'static str> = Vec::new();
    v.push("↑/↓ Navigate");
    v.push("Enter Select");
    v.push("Ctrl-F/B Page");
    v.push("Esc/q Quit");
    v
}

} // verus!
