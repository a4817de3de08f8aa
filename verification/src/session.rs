//! The shared browsing session over an in-memory entry set.
//!
//! Each tool loads its entries and hands them to a `Session`; from then on
//! one engine drives filtering, selection and pagination for all of them.
//! A keystroke refilters the whole set and resets the selection; the host
//! only draws and carries out the returned action.

use vstd::prelude::*;

use crate::filter::{filter_spec, static_filter, Searchable};
use crate::search::typed_char;
use crate::selection::{
    next_selection_spec, page_backward_spec, page_forward_spec, prev_selection_spec,
    reset_selection_spec, Key, SelectableList,
};
use crate::text::{chars_of, string_from_chars};

verus! {

/// What the host must do after one input event of a session.
pub enum SessionAction {
    /// Nothing.
    Nothing,
    /// Leave the session.
    Quit,
    /// Act on the entry at this index of the filtered set.
    Open(usize),
    /// The selection moved: rebuild the preview for it.
    Preview,
    /// The filtered set was rebuilt: redraw and rebuild the preview.
    Refiltered,
}

/// One tool's browsing state: the full entry set, the filtered view of it,
/// the query, and the selection.
pub struct Session<E> {
    entries: Vec<E>,
    filtered: Vec<E>,
    query: Vec<char>,
    list: SelectableList,
    should_quit: bool,
}

impl<E: Searchable> Session<E> {
    pub closed spec fn spec_entries(self) -> Seq<E> {
        self.entries@
    }

    pub closed spec fn spec_filtered(self) -> Seq<E> {
        self.filtered@
    }

    pub closed spec fn spec_query(self) -> Seq<char> {
        self.query@
    }

    pub closed spec fn spec_selection(self) -> Option<usize> {
        self.list.spec_selection()
    }

    pub closed spec fn spec_quit(self) -> bool {
        self.should_quit
    }

    /// The filtered set is always the filter of the entries by the query,
    /// and the selection stays inside it.
    pub closed spec fn wf(self) -> bool {
        &&& self.list.wf()
        &&& self.list.spec_total() == self.filtered@.len()
        &&& self.filtered@ == filter_spec(self.entries@, self.query@)
    }

    /// A fresh session over `entries`, already filtered by the initial
    /// query, with the first match of a non-empty result selected.
    pub fn new(entries: Vec<E>, initial_query: &str) -> (r: Session<E>)
        ensures
            r.wf(),
            !r.spec_quit(),
            r.spec_entries() == entries@,
            r.spec_query() == initial_query@,
            r.spec_filtered() == filter_spec(entries@, initial_query@),
            r.spec_selection() == reset_selection_spec(
                filter_spec(entries@, initial_query@).len() as int,
            ),
    {
        let filtered = static_filter(&entries, initial_query);
        let mut list = SelectableList::new();
        list.reset(filtered.len());
        let query = chars_of(initial_query);
        Session { entries, filtered, query, list, should_quit: false }
    }

    /// Rebuild the filtered set for the current query and reset the
    /// selection, as every query change must.
    fn refilter(&mut self)
        ensures
            final(self).wf(),
            final(self).spec_entries() == old(self).spec_entries(),
            final(self).spec_query() == old(self).spec_query(),
            final(self).spec_quit() == old(self).spec_quit(),
            final(self).spec_filtered() == filter_spec(
                old(self).spec_entries(),
                old(self).spec_query(),
            ),
            final(self).spec_selection() == reset_selection_spec(
                final(self).spec_filtered().len() as int,
            ),
    {
        let qs = string_from_chars(&self.query);
        self.filtered = static_filter(&self.entries, qs.as_str());
        let len = self.filtered.len();
        self.list.reset(len);
    }

    /// Drive the session by one polled key event: typing edits the query
    /// and refilters, the navigation keys move the selection, and the
    /// returned action tells the host what to do next.
    pub fn step(&mut self, key: Key, ctrl: bool) -> (r: SessionAction)
        requires
            old(self).wf(),
        ensures
            final(self).wf(),
            final(self).spec_entries() == old(self).spec_entries(),
            key == Key::Esc || key == Key::Char('q') || (key == Key::Char('c') && ctrl) ==> (r
                == SessionAction::Quit && final(self).spec_quit()
                && final(self).spec_query() == old(self).spec_query()
                && final(self).spec_filtered() == old(self).spec_filtered()
                && final(self).spec_selection() == old(self).spec_selection()),
            key == Key::Char('f') && ctrl ==> (final(self).spec_selection() == page_forward_spec(
                old(self).spec_selection(),
                old(self).spec_filtered().len() as int,
                10,
            ) && final(self).spec_filtered() == old(self).spec_filtered()
                && final(self).spec_query() == old(self).spec_query()
                && r == (if final(self).spec_selection() is Some {
                SessionAction::Preview
            } else {
                SessionAction::Nothing
            })),
            key == Key::Char('b') && ctrl ==> (final(self).spec_selection() == page_backward_spec(
                old(self).spec_selection(),
                10,
            ) && final(self).spec_filtered() == old(self).spec_filtered()
                && final(self).spec_query() == old(self).spec_query()
                && r == (if final(self).spec_selection() is Some {
                SessionAction::Preview
            } else {
                SessionAction::Nothing
            })),
            key == Key::Up ==> (final(self).spec_selection() == prev_selection_spec(
                old(self).spec_selection(),
            ) && final(self).spec_filtered() == old(self).spec_filtered()
                && final(self).spec_query() == old(self).spec_query()
                && r == (if old(self).spec_selection() matches Some(i) && i > 0 {
                SessionAction::Preview
            } else {
                SessionAction::Nothing
            })),
            key == Key::Down ==> (final(self).spec_selection() == next_selection_spec(
                old(self).spec_selection(),
                old(self).spec_filtered().len() as int,
            ) && final(self).spec_filtered() == old(self).spec_filtered()
                && final(self).spec_query() == old(self).spec_query()
                && r == (if final(self).spec_selection() != old(self).spec_selection() {
                SessionAction::Preview
            } else {
                SessionAction::Nothing
            })),
            key == Key::Enter ==> (final(self).spec_filtered() == old(self).spec_filtered()
                && final(self).spec_query() == old(self).spec_query()
                && final(self).spec_selection() == old(self).spec_selection()
                && r == (match old(self).spec_selection() {
                Some(i) => SessionAction::Open(i),
                None => SessionAction::Nothing,
            })),
            typed_char(key, ctrl) matches Some(c) ==> ({
                let q2 = final(self).spec_query();
                &&& q2 == old(self).spec_query().push(c)
                &&& final(self).spec_filtered() == filter_spec(old(self).spec_entries(), q2)
                &&& final(self).spec_selection() == reset_selection_spec(
                    final(self).spec_filtered().len() as int,
                )
                &&& r == SessionAction::Refiltered
            }),
            key == Key::Backspace ==> ({
                let q0 = old(self).spec_query();
                let q2 = final(self).spec_query();
                &&& (q2 == q0.drop_last() || (q0.len() == 0 && q2.len() == 0))
                &&& final(self).spec_filtered() == filter_spec(old(self).spec_entries(), q2)
                &&& final(self).spec_selection() == reset_selection_spec(
                    final(self).spec_filtered().len() as int,
                )
                &&& r == SessionAction::Refiltered
            }),
    {
        match key {
            Key::Char(c) => {
                if c == 'q' {
                    self.should_quit = true;
                    SessionAction::Quit
                } else if c == 'c' && ctrl {
                    self.should_quit = true;
                    SessionAction::Quit
                } else if c == 'f' && ctrl {
                    self.list.page_forward(10);
                    if self.list.selection().is_some() {
                        SessionAction::Preview
                    } else {
                        SessionAction::Nothing
                    }
                } else if c == 'b' && ctrl {
                    self.list.page_backward(10);
                    if self.list.selection().is_some() {
                        SessionAction::Preview
                    } else {
                        SessionAction::Nothing
                    }
                } else {
                    self.query.push(c);
                    self.refilter();
                    SessionAction::Refiltered
                }
            },
            Key::Esc => {
                self.should_quit = true;
                SessionAction::Quit
            },
            Key::Up => {
                let moved = match self.list.selection() {
                    Some(i) => i > 0,
                    None => false,
                };
                self.list.select_prev();
                if moved {
                    SessionAction::Preview
                } else {
                    SessionAction::Nothing
                }
            },
            Key::Down => {
                let before = self.list.selection();
                self.list.select_next();
                if self.list.selection() != before {
                    SessionAction::Preview
                } else {
                    SessionAction::Nothing
                }
            },
            Key::Enter => {
                match self.list.selection() {
                    Some(i) => SessionAction::Open(i),
                    None => SessionAction::Nothing,
                }
            },
            Key::Backspace => {
                let popped = self.query.pop();
                proof {
                    if old(self).spec_query().len() == 0 {
                        assert(self.query@ =~= old(self).spec_query());
                    }
                }
                self.refilter();
                SessionAction::Refiltered
            },
            _ => SessionAction::Nothing,
        }
    }

    /// The filtered entries, for rendering.
    pub fn filtered(&self) -> (r: &Vec<E>)
        ensures
            r@ == self.spec_filtered(),
    {
        &self.filtered
    }

    /// The entry the selection rests on, if any.
    pub fn selected(&self) -> (r: Option<&E>)
        requires
            self.wf(),
        ensures
            match self.spec_selection() {
                Some(i) => r matches Some(e) && *e == self.spec_filtered()[i as int],
                None => r is None,
            },
    {
        match self.list.selection() {
            Some(i) => Some(&self.filtered[i]),
            None => None,
        }
    }

    /// The current selection, for rendering.
    pub fn selection(&self) -> (r: Option<usize>)
        ensures
            r == self.spec_selection(),
    {
        self.list.selection()
    }

    /// The current query, for rendering.
    pub fn query_string(&self) -> (r: String)
        ensures
            r@ == self.spec_query(),
    {
        string_from_chars(&self.query)
    }

    /// Whether a quit key was seen.
    pub fn should_quit(&self) -> (r: bool)
        ensures
            r == self.spec_quit(),
    {
        self.should_quit
    }
}

} // verus!
