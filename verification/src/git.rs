//! The git diff browser: a scroll-position state machine over one captured
//! diff text.  The host runs the git command and polls the terminal; the
//! browser owns the content, the scroll arithmetic and the quit decision.

use vstd::prelude::*;

use vstd::string::StringExecFns;

use crate::selection::Key;
use crate::text::{chars_blank, chars_of, dec_str, is_blank, lines_of, split_lines, u64_to_string};

verus! {

/// A key event that ends the browser.
pub open spec fn is_quit_key(key: Key, ctrl: bool) -> bool {
    key == Key::Esc || key == Key::Char('q') || (ctrl && key == Key::Char('c'))
}

/// The last reachable scroll offset for a text of `count` lines.
pub open spec fn max_scroll(count: int) -> int {
    if count > 0 {
        count - 1
    } else {
        0
    }
}

/// The scroll offset after one non-quit key event: pages move by twenty
/// lines, single steps by one, home and end jump, all clamped to the text.
pub open spec fn scroll_after(scroll: int, count: int, key: Key, ctrl: bool) -> int {
    if key == Key::Char('f') && ctrl {
        if scroll + 20 < max_scroll(count) {
            scroll + 20
        } else {
            max_scroll(count)
        }
    } else if key == Key::Char('b') && ctrl {
        if scroll > 20 {
            scroll - 20
        } else {
            0
        }
    } else if key == Key::Up || key == Key::Char('k') {
        if scroll > 0 {
            scroll - 1
        } else {
            scroll
        }
    } else if key == Key::Down || key == Key::Char('j') {
        if scroll < max_scroll(count) {
            scroll + 1
        } else {
            scroll
        }
    } else if key == Key::Home || key == Key::Char('g') {
        0
    } else if key == Key::End || key == Key::Char('G') {
        if count > 20 {
            count - 20
        } else {
            0
        }
    } else {
        scroll
    }
}

/// The scroll offset and quit verdict after a sequence of key events,
/// stopping at the first quit key.
pub open spec fn run_scroll_spec(scroll: int, count: int, keys: Seq<(Key, bool)>) -> (int, bool)
    decreases keys.len(),
{
    if keys.len() == 0 {
        (scroll, false)
    } else {
        let k = keys[0];
        if is_quit_key(k.0, k.1) {
            (scroll, true)
        } else {
            run_scroll_spec(scroll_after(scroll, count, k.0, k.1), count, keys.drop_first())
        }
    }
}

/// The diff browser: one captured diff text and a scroll position in it.
pub struct GitDiffBrowser {
    diff_content: String,
    line_count: usize,
    scroll_offset: usize,
    should_quit: bool,
    status_message: String,
}

impl GitDiffBrowser {
    pub closed spec fn spec_content(self) -> Seq<char> {
        self.diff_content@
    }

    pub closed spec fn spec_count(self) -> int {
        self.line_count as int
    }

    pub closed spec fn spec_scroll(self) -> int {
        self.scroll_offset as int
    }

    pub closed spec fn spec_quit(self) -> bool {
        self.should_quit
    }

    pub closed spec fn spec_status(self) -> Seq<char> {
        self.status_message@
    }

    /// The scroll position stays inside the text.
    pub open spec fn wf(self) -> bool {
        self.spec_count() == lines_of(self.spec_content()).len() && 0 <= self.spec_scroll()
            <= max_scroll(self.spec_count())
    }

    /// A browser over what the git diff command produced: the captured
    /// output, or nothing when the command failed.  A blank diff becomes a
    /// clean-tree notice; a real one is kept whole, with its line count in
    /// the status.
    pub fn new(diff_output: Option<String>) -> (r: GitDiffBrowser)
        ensures
            r.wf(),
            !r.spec_quit(),
            r.spec_scroll() == 0,
            diff_output is None ==> r.spec_content().len() == 0 && r.spec_status()
                == "Error: Not a git repository or git not found"@,
            diff_output matches Some(out) ==> ((is_blank(out@) ==> r.spec_content()
                == "No changes to show"@ && r.spec_status() == "Working tree clean"@) && (!is_blank(
                out@,
            ) ==> r.spec_content() == out@ && r.spec_status() == "Git diff ("@ + dec_str(
                lines_of(out@).len() as int,
            ) + " lines)"@)),
    {
        match diff_output {
            None => {
                let content = String::new();
                GitDiffBrowser {
                    diff_content: content,
                    line_count: 0,
                    scroll_offset: 0,
                    should_quit: false,
                    status_message: "Error: Not a git repository or git not found".to_owned(),
                }
            },
            Some(out) => {
                let v = chars_of(out.as_str());
                if chars_blank(&v) {
                    let content: String = "No changes to show".to_owned();
                    let cv = chars_of(content.as_str());
                    let lines = split_lines(&cv);
                    GitDiffBrowser {
                        diff_content: content,
                        line_count: lines.len(),
                        scroll_offset: 0,
                        should_quit: false,
                        status_message: "Working tree clean".to_owned(),
                    }
                } else {
                    let lines = split_lines(&v);
                    let count = lines.len();
                    let mut status = String::new();
                    status.append("Git diff (");
                    status.append(u64_to_string(count as u64).as_str());
                    status.append(" lines)");
                    proof {
                        assert(status@ =~= "Git diff ("@ + dec_str(lines_of(out@).len() as int)
                            + " lines)"@);
                    }
                    GitDiffBrowser {
                        diff_content: out,
                        line_count: count,
                        scroll_offset: 0,
                        should_quit: false,
                        status_message: status,
                    }
                }
            },
        }
    }

    /// Page down by twenty lines, clamped to the last line.
    pub fn page_down(&mut self)
        requires
            old(self).wf(),
        ensures
            final(self).wf(),
            final(self).spec_content() == old(self).spec_content(),
            final(self).spec_quit() == old(self).spec_quit(),
            final(self).spec_scroll() == scroll_after(
                old(self).spec_scroll(),
                old(self).spec_count(),
                Key::Char('f'),
                true,
            ),
    {
        let cap = if self.line_count > 0 {
            self.line_count - 1
        } else {
            0
        };
        self.scroll_offset = if self.scroll_offset < cap && 20 < cap - self.scroll_offset {
            self.scroll_offset + 20
        } else {
            cap
        };
    }

    /// Page up by twenty lines, clamped to the first line.
    pub fn page_up(&mut self)
        requires
            old(self).wf(),
        ensures
            final(self).wf(),
            final(self).spec_content() == old(self).spec_content(),
            final(self).spec_quit() == old(self).spec_quit(),
            final(self).spec_scroll() == scroll_after(
                old(self).spec_scroll(),
                old(self).spec_count(),
                Key::Char('b'),
                true,
            ),
    {
        self.scroll_offset = if self.scroll_offset > 20 {
            self.scroll_offset - 20
        } else {
            0
        };
    }

    /// Apply one polled key event: quit keys end the browser, the rest
    /// move the scroll position as `scroll_after` says.
    pub fn handle_input(&mut self, key: Key, ctrl: bool)
        requires
            old(self).wf(),
        ensures
            final(self).wf(),
            final(self).spec_content() == old(self).spec_content(),
            final(self).spec_count() == old(self).spec_count(),
            is_quit_key(key, ctrl) ==> final(self).spec_quit() && final(self).spec_scroll()
                == old(self).spec_scroll(),
            !is_quit_key(key, ctrl) ==> final(self).spec_quit() == old(self).spec_quit()
                && final(self).spec_scroll() == scroll_after(
                old(self).spec_scroll(),
                old(self).spec_count(),
                key,
                ctrl,
            ),
    {
        match key {
            Key::Char(c) => {
                if c == 'q' {
                    self.should_quit = true;
                } else if c == 'c' && ctrl {
                    self.should_quit = true;
                } else if c == 'f' && ctrl {
                    self.page_down();
                } else if c == 'b' && ctrl {
                    self.page_up();
                } else if c == 'k' {
                    if self.scroll_offset > 0 {
                        self.scroll_offset = self.scroll_offset - 1;
                    }
                } else if c == 'j' {
                    let cap = if self.line_count > 0 {
                        self.line_count - 1
                    } else {
                        0
                    };
                    if self.scroll_offset < cap {
                        self.scroll_offset = self.scroll_offset + 1;
                    }
                } else if c == 'g' {
                    self.scroll_offset = 0;
                } else if c == 'G' {
                    self.scroll_offset = if self.line_count > 20 {
                        self.line_count - 20
                    } else {
                        0
                    };
                }
            },
            Key::Esc => {
                self.should_quit = true;
            },
            Key::Up => {
                if self.scroll_offset > 0 {
                    self.scroll_offset = self.scroll_offset - 1;
                }
            },
            Key::Down => {
                let cap = if self.line_count > 0 {
                    self.line_count - 1
                } else {
                    0
                };
                if self.scroll_offset < cap {
                    self.scroll_offset = self.scroll_offset + 1;
                }
            },
            Key::Home => {
                self.scroll_offset = 0;
            },
            Key::End => {
                self.scroll_offset = if self.line_count > 20 {
                    self.line_count - 20
                } else {
                    0
                };
            },
            _ => {},
        }
    }

    /// Drive the browser over a sequence of polled key events, stopping at
    /// the first quit key.
    pub fn run(&mut self, keys: &Vec<(Key, bool)>)
        requires
            old(self).wf(),
            !old(self).spec_quit(),
        ensures
            final(self).wf(),
            final(self).spec_content() == old(self).spec_content(),
            final(self).spec_count() == old(self).spec_count(),
            ({
                let (sc, q) = run_scroll_spec(
                    old(self).spec_scroll(),
                    old(self).spec_count(),
                    keys@,
                );
                final(self).spec_scroll() == sc && final(self).spec_quit() == q
            }),
    {
        let ghost all = keys@;
        let ghost count = old(self).spec_count();
        let mut i: usize = 0;
        proof {
            assert(all.skip(0) =~= all);
        }
        while i < keys.len() && !self.should_quit
            invariant
                i <= all.len(),
                keys@ == all,
                self.wf(),
                self.spec_content() == old(self).spec_content(),
                self.spec_count() == count,
                !self.spec_quit() ==> run_scroll_spec(old(self).spec_scroll(), count, all)
                    == run_scroll_spec(self.spec_scroll(), count, all.skip(i as int)),
                self.spec_quit() ==> run_scroll_spec(old(self).spec_scroll(), count, all) == (
                self.spec_scroll(), true),
            decreases all.len() - i,
        {
            let (key, ctrl) = keys[i];
            proof {
                assert(all.skip(i as int)[0] == all[i as int]);
                assert(all.skip(i as int).drop_first() =~= all.skip(i + 1));
            }
            self.handle_input(key, ctrl);
            i += 1;
        }
        proof {
            if !self.should_quit {
                assert(all.skip(i as int) =~= Seq::<(Key, bool)>::empty());
            }
        }
    }

    /// The diff text, for rendering.
    pub fn content(&self) -> (r: &String)
        ensures
            r@ == self.spec_content(),
    {
        &self.diff_content
    }

    /// The current scroll offset.
    pub fn scroll_offset(&self) -> (r: usize)
        ensures
            r as int == self.spec_scroll(),
    {
        self.scroll_offset
    }

    /// The status line.
    pub fn status_message(&self) -> (r: &String)
        ensures
            r@ == self.spec_status(),
    {
        &self.status_message
    }

    /// Whether a quit key was seen.
    pub fn should_quit(&self) -> (r: bool)
        ensures
            r == self.spec_quit(),
    {
        self.should_quit
    }
}

} // verus!
