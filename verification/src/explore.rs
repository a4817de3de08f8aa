//! The directory explorer session: a selection over one directory's
//! entries and the navigation decisions over them.  The host reads
//! directories, follows the returned actions, and hands the freshly read
//! entries back.

use vstd::prelude::*;

use crate::entries::FileEntry;
use crate::selection::{
    next_selection_spec, page_backward_spec, page_forward_spec, prev_selection_spec,
    reset_selection_spec, Key, SelectableList,
};

verus! {

/// What the host must do after one input event of the explorer.
pub enum ExplorerAction {
    /// Nothing.
    Nothing,
    /// Leave the explorer.
    Quit,
    /// Read this directory and hand its entries back.
    ChangeDir(String),
    /// Open this file in an editor, then leave.
    OpenFile(String),
    /// Go up to the parent of the current directory.
    Parent,
    /// Re-read the current directory.
    Reload,
    /// Go to the user's home directory.
    GoHome,
    /// The selection moved: rebuild the preview for it.
    Preview,
}

/// The explorer session: the current directory's entries and the
/// selection over them.
pub struct FileExplorer {
    entries: Vec<FileEntry>,
    list: SelectableList,
    should_quit: bool,
}

impl FileExplorer {
    pub closed spec fn spec_entries(self) -> Seq<FileEntry> {
        self.entries@
    }

    pub closed spec fn spec_selection(self) -> Option<usize> {
        self.list.spec_selection()
    }

    pub closed spec fn spec_quit(self) -> bool {
        self.should_quit
    }

    /// The selection always stays inside the entry set.
    pub closed spec fn wf(self) -> bool {
        self.list.wf() && self.list.spec_total() == self.entries@.len()
    }

    /// A fresh explorer with nothing loaded yet.
    pub fn new() -> (r: FileExplorer)
        ensures
            r.wf(),
            !r.spec_quit(),
            r.spec_entries().len() == 0,
    {
        FileExplorer { entries: Vec::new(), list: SelectableList::new(), should_quit: false }
    }

    /// Take in a freshly read directory: its entries replace the old ones
    /// and the selection resets to the first of a non-empty listing.
    pub fn apply_directory(&mut self, entries: Vec<FileEntry>)
        ensures
            final(self).wf(),
            final(self).spec_quit() == old(self).spec_quit(),
            final(self).spec_entries() == entries@,
            final(self).spec_selection() == reset_selection_spec(entries@.len() as int),
    {
        self.entries = entries;
        let len = self.entries.len();
        self.list.reset(len);
    }

    /// Drive the explorer by one polled key event: navigation moves the
    /// selection, opening a directory or file, going up, reloading and
    /// going home are handed to the host as actions.
    pub fn handle_input(&mut self, key: Key, ctrl: bool) -> (r: ExplorerAction)
        requires
            old(self).wf(),
        ensures
            final(self).wf(),
            final(self).spec_entries() == old(self).spec_entries(),
            key == Key::Esc || key == Key::Char('q') || (key == Key::Char('c') && ctrl) ==> (r
                == ExplorerAction::Quit && final(self).spec_quit()),
            key == Key::Char('f') && ctrl ==> (final(self).spec_selection() == page_forward_spec(
                old(self).spec_selection(),
                old(self).spec_entries().len() as int,
                10,
            ) && r == (if final(self).spec_selection() is Some {
                ExplorerAction::Preview
            } else {
                ExplorerAction::Nothing
            })),
            key == Key::Char('b') && ctrl ==> (final(self).spec_selection() == page_backward_spec(
                old(self).spec_selection(),
                10,
            ) && r == (if final(self).spec_selection() is Some {
                ExplorerAction::Preview
            } else {
                ExplorerAction::Nothing
            })),
            key == Key::Up ==> (final(self).spec_selection() == prev_selection_spec(
                old(self).spec_selection(),
            ) && r == (if old(self).spec_selection() matches Some(i) && i > 0 {
                ExplorerAction::Preview
            } else {
                ExplorerAction::Nothing
            })),
            key == Key::Down ==> (final(self).spec_selection() == next_selection_spec(
                old(self).spec_selection(),
                old(self).spec_entries().len() as int,
            ) && r == (if final(self).spec_selection() != old(self).spec_selection() {
                ExplorerAction::Preview
            } else {
                ExplorerAction::Nothing
            })),
            key == Key::Enter || key == Key::Right ==> (final(self).spec_selection() == old(
                self,
            ).spec_selection() && r == (match old(self).spec_selection() {
                Some(i) => {
                    let e = old(self).spec_entries()[i as int];
                    if e.is_directory {
                        ExplorerAction::ChangeDir(e.path)
                    } else {
                        ExplorerAction::OpenFile(e.path)
                    }
                },
                None => ExplorerAction::Nothing,
            }) && (r matches ExplorerAction::OpenFile(_) ==> final(self).spec_quit())),
            key == Key::Left ==> r == ExplorerAction::Parent,
            key == Key::Char('r') && !ctrl ==> r == ExplorerAction::Reload,
            key == Key::Home ==> r == ExplorerAction::GoHome,
    {
        match key {
            Key::Char(c) => {
                if c == 'q' {
                    self.should_quit = true;
                    ExplorerAction::Quit
                } else if c == 'c' && ctrl {
                    self.should_quit = true;
                    ExplorerAction::Quit
                } else if c == 'f' && ctrl {
                    self.list.page_forward(10);
                    if self.list.selection().is_some() {
                        ExplorerAction::Preview
                    } else {
                        ExplorerAction::Nothing
                    }
                } else if c == 'b' && ctrl {
                    self.list.page_backward(10);
                    if self.list.selection().is_some() {
                        ExplorerAction::Preview
                    } else {
                        ExplorerAction::Nothing
                    }
                } else if c == 'r' {
                    ExplorerAction::Reload
                } else {
                    ExplorerAction::Nothing
                }
            },
            Key::Esc => {
                self.should_quit = true;
                ExplorerAction::Quit
            },
            Key::Up => {
                let moved = match self.list.selection() {
                    Some(i) => i > 0,
                    None => false,
                };
                self.list.select_prev();
                if moved {
                    ExplorerAction::Preview
                } else {
                    ExplorerAction::Nothing
                }
            },
            Key::Down => {
                let before = self.list.selection();
                self.list.select_next();
                if self.list.selection() != before {
                    ExplorerAction::Preview
                } else {
                    ExplorerAction::Nothing
                }
            },
            Key::Enter | Key::Right => {
                match self.list.selection() {
                    Some(i) => {
                        let e = &self.entries[i];
                        if e.is_directory {
                            ExplorerAction::ChangeDir(e.path.clone())
                        } else {
                            self.should_quit = true;
                            ExplorerAction::OpenFile(e.path.clone())
                        }
                    },
                    None => ExplorerAction::Nothing,
                }
            },
            Key::Left => ExplorerAction::Parent,
            Key::Home => ExplorerAction::GoHome,
            _ => ExplorerAction::Nothing,
        }
    }

    /// The current entries, for rendering.
    pub fn entries(&self) -> (r: &Vec<FileEntry>)
        ensures
            r@ == self.spec_entries(),
    {
        &self.entries
    }

    /// The entry the selection rests on, if any.
    pub fn selected(&self) -> (r: Option<&FileEntry>)
        requires
            self.wf(),
        ensures
            match self.spec_selection() {
                Some(i) => r matches Some(e) && *e == self.spec_entries()[i as int],
                None => r is None,
            },
    {
        match self.list.selection() {
            Some(i) => Some(&self.entries[i]),
            None => None,
        }
    }

    /// The current selection, for rendering.
    pub fn selection(&self) -> (r: Option<usize>)
        ensures
            r == self.spec_selection(),
    {
        self.list.selection()
    }

    /// Whether a quit key was seen.
    pub fn should_quit(&self) -> (r: bool)
        ensures
            r == self.spec_quit(),
    {
        self.should_quit
    }
}

} // verus!
