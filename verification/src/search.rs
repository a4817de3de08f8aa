//! The live content-search engine.
//!
//! Where the corpus is too large to filter in memory, every keystroke
//! plans a fresh run of the external search tool; the host performs the
//! run and hands the captured output back.  Queries shorter than two
//! characters never spawn a process: they just clear the results.  Output
//! lines are parsed as `path:line_number:content`; lines of any other
//! shape are dropped silently.

use vstd::prelude::*;

use vstd::string::StringExecFns;

use crate::bridge::ProcessInvocation;
use crate::entries::SearchResult;
use crate::selection::{page_backward_spec, page_forward_spec, reset_selection_spec, Key,
    SelectableList};
use crate::text::{
    all_digits, chars_of, contains_seq, dec_value, find_char, find_sub, first_index_of,
    lemma_first_index_of, lower_chars, lower_of, matches_at, parse_u32_chars, string_from_chars,
    subrange_vec,
};

verus! {

// ---------------------------------------------------------------------------
// Parsing search output
// ---------------------------------------------------------------------------

/// A line split at its first two colons: `path:line_number:content`, the
/// content free to hold further colons.  Absent when the line has fewer
/// than two colons.
pub open spec fn split3_spec(s: Seq<char>) -> Option<(Seq<char>, Seq<char>, Seq<char>)> {
    let i = first_index_of(s, ':');
    if i < 0 {
        None
    } else {
        let rest = s.skip(i + 1);
        let j = first_index_of(rest, ':');
        if j < 0 {
            None
        } else {
            Some((s.take(i), rest.take(j), rest.skip(j + 1)))
        }
    }
}

/// Index of the first occurrence of `p` in `t`, or `-1` when absent.
pub open spec fn first_match_index(t: Seq<char>, p: Seq<char>) -> int
    decreases t.len(),
{
    if matches_at(t, p, 0) {
        0
    } else if t.len() == 0 {
        -1
    } else {
        let r = first_match_index(t.drop_first(), p);
        if r < 0 {
            -1
        } else {
            r + 1
        }
    }
}

pub proof fn lemma_first_match_index(t: Seq<char>, p: Seq<char>)
    ensures
        ({
            let i = first_match_index(t, p);
            &&& -1 <= i <= t.len()
            &&& i >= 0 ==> matches_at(t, p, i) && (forall|j: int|
                0 <= j < i ==> !matches_at(t, p, j))
            &&& i < 0 ==> !contains_seq(t, p)
        }),
    decreases t.len(),
{
    if matches_at(t, p, 0) {
    } else if t.len() == 0 {
        assert forall|i: int| !matches_at(t, p, i) by {
            if matches_at(t, p, i) {
                assert(i == 0);
            }
        }
    } else {
        lemma_first_match_index(t.drop_first(), p);
        assert forall|j: int| 0 <= j implies matches_at(t.drop_first(), p, j) == matches_at(
            t,
            p,
            j + 1,
        ) by {
            if j + p.len() <= t.drop_first().len() {
                assert(t.drop_first().subrange(j, j + p.len() as int) =~= t.subrange(
                    j + 1,
                    j + 1 + p.len() as int,
                ));
            }
        }
        let r = first_match_index(t.drop_first(), p);
        if r < 0 {
            assert forall|i: int| !matches_at(t, p, i) by {
                if matches_at(t, p, i) {
                    if i >= 1 {
                        assert(matches_at(t.drop_first(), p, i - 1));
                    }
                }
            }
        } else {
            assert(matches_at(t, p, r + 1));
            assert forall|j: int| 0 <= j < r + 1 implies !matches_at(t, p, j) by {
                if j >= 1 {
                    assert(!matches_at(t.drop_first(), p, j - 1));
                }
            }
        }
    }
}

/// The matched portion of a found line: the first case-insensitive
/// occurrence of the query, cut from the original text; where the cut
/// would overrun the line, the query itself stands in.
pub open spec fn extract_match_spec(content: Seq<char>, query: Seq<char>) -> Seq<char> {
    let i = first_match_index(lower_of(content), lower_of(query));
    if i >= 0 && i + query.len() <= content.len() {
        content.subrange(i, i + query.len() as int)
    } else {
        query
    }
}

/// Cut the matched portion of `content` for `query`.
pub fn extract_match(content: &str, query: &str) -> (r: String)
    ensures
        r@ == extract_match_spec(content@, query@),
{
    let lc = lower_chars(content);
    let lq = lower_chars(query);
    proof {
        lemma_first_match_index(lc@, lq@);
    }
    match find_sub(&lc, &lq) {
        Some(i) => {
            proof {
                let fi = first_match_index(lc@, lq@);
                if fi < i {
                    assert(!matches_at(lc@, lq@, fi));
                }
                if fi > i || fi < 0 {
                    assert(!matches_at(lc@, lq@, i as int));
                }
                assert(fi == i);
            }
            let cv = chars_of(content);
            let qv = chars_of(query);
            if qv.len() <= cv.len() && i <= cv.len() - qv.len() {
                let cut = subrange_vec(&cv, i, i + qv.len());
                string_from_chars(&cut)
            } else {
                query.to_owned()
            }
        },
        None => {
            proof {
                let fi = first_match_index(lc@, lq@);
                if fi >= 0 {
                    assert(matches_at(lc@, lq@, fi));
                }
            }
            query.to_owned()
        },
    }
}

/// The parsed view of one output line for `query`: path, line number, line
/// content and matched text; absent when the line does not have the
/// three-field shape or its middle field is not an unsigned 32-bit number.
pub open spec fn parsed_line_model(line: Seq<char>, query: Seq<char>) -> Option<
    (Seq<char>, int, Seq<char>, Seq<char>),
> {
    match split3_spec(line) {
        Some((path, num, content)) => {
            if num.len() > 0 && all_digits(num) && dec_value(num) <= u32::MAX {
                Some((path, dec_value(num), content, extract_match_spec(content, query)))
            } else {
                None
            }
        },
        None => None,
    }
}

/// The plain view of a parsed search result.
pub open spec fn result_model(r: SearchResult) -> (Seq<char>, int, Seq<char>, Seq<char>) {
    (r.file_path@, r.line_number as int, r.line_content@, r.matched_text@)
}

/// Parse one `path:line_number:content` line of search output.
pub fn parse_ripgrep_line(line: &str, query: &str) -> (r: Option<SearchResult>)
    ensures
        match r {
            Some(sr) => parsed_line_model(line@, query@) == Some(result_model(sr)),
            None => parsed_line_model(line@, query@) is None,
        },
{
    let v = chars_of(line);
    let vlen = v.len();
    let i = match find_char(&v, ':', 0) {
        Some(i) => i,
        None => {
            proof {
                lemma_first_index_of(line@, ':');
                let fi = first_index_of(line@, ':');
                if fi >= 0 {
                    assert(line@[fi] != ':');
                }
            }
            return None;
        },
    };
    proof {
        lemma_first_index_of(line@, ':');
        let fi = first_index_of(line@, ':');
        if fi < i {
            assert(line@[fi] != ':');
        }
        if fi > i || fi < 0 {
            assert(line@[i as int] != ':');
        }
        assert(fi == i);
    }
    let ghost rest = line@.skip(i + 1);
    let j = match find_char(&v, ':', i + 1) {
        Some(j) => j,
        None => {
            proof {
                lemma_first_index_of(rest, ':');
                let fj = first_index_of(rest, ':');
                if fj >= 0 {
                    assert(rest[fj] == line@[i + 1 + fj]);
                }
            }
            return None;
        },
    };
    proof {
        lemma_first_index_of(rest, ':');
        let fj = first_index_of(rest, ':');
        assert(rest[j - i - 1] == line@[j as int]);
        assert forall|k: int| 0 <= k < j - i - 1 implies rest[k] != ':' by {
            assert(rest[k] == line@[i + 1 + k]);
        }
        if fj < j - i - 1 {
            assert(rest[fj] == line@[i + 1 + fj]);
        }
        assert(fj == j - i - 1);
    }
    let num = subrange_vec(&v, i + 1, j);
    proof {
        assert(num@ =~= rest.take(j - i - 1));
    }
    let n = match parse_u32_chars(&num) {
        Some(n) => n,
        None => {
            return None;
        },
    };
    let path = subrange_vec(&v, 0, i);
    let content = subrange_vec(&v, j + 1, vlen);
    proof {
        assert(path@ =~= line@.take(i as int));
        assert(content@ =~= rest.skip(j - i - 1 + 1));
    }
    let content_s = string_from_chars(&content);
    let matched = extract_match(content_s.as_str(), query);
    Some(
        SearchResult {
            file_path: string_from_chars(&path),
            line_number: n,
            line_content: content_s,
            matched_text: matched,
        },
    )
}

// ---------------------------------------------------------------------------
// Planning the external search
// ---------------------------------------------------------------------------

/// The argument list of one search-tool run: line numbers, file names, no
/// heading, no color, a hard cap on results, then the optional
/// case-insensitivity flag and type filter, then pattern and root.
pub open spec fn rg_args_spec(
    query: Seq<char>,
    path: Seq<char>,
    file_type: Option<String>,
    ignore_case: bool,
) -> Seq<Seq<char>> {
    seq![
        "--line-number"@,
        "--with-filename"@,
        "--no-heading"@,
        "--color=never"@,
        "--max-count=100"@,
    ] + (if ignore_case {
        seq!["--ignore-case"@]
    } else {
        Seq::empty()
    }) + (match file_type {
        Some(ft) => seq!["--type"@, ft@],
        None => Seq::empty(),
    }) + seq![query, path]
}

/// The fallback tool's argument list: recursive, line-numbered, optionally
/// case-insensitive, then pattern and root.
pub open spec fn grep_args_spec(query: Seq<char>, path: Seq<char>, ignore_case: bool) -> Seq<
    Seq<char>,
> {
    seq!["-rn"@] + (if ignore_case {
        seq!["-i"@]
    } else {
        Seq::empty()
    }) + seq![query, path]
}

fn push_owned(args: &mut Vec<String>, s: &str)
    ensures
        final(args)@.map_values(|t: String| t@) == old(args)@.map_values(|t: String| t@).push(s@),
{
    args.push(s.to_owned());
    proof {
        assert(args@.map_values(|t: String| t@) =~= old(args)@.map_values(|t: String| t@).push(
            s@,
        ));
    }
}

/// Build the search-tool invocation for one query.
pub fn rg_invocation(query: &str, path: &str, file_type: &Option<String>, ignore_case: bool) -> (r:
    ProcessInvocation)
    ensures
        r.program@ == "rg"@,
        r.args@.map_values(|t: String| t@) == rg_args_spec(query@, path@, *file_type, ignore_case),
{
    let mut args: Vec<String> = Vec::new();
    push_owned(&mut args, "--line-number");
    push_owned(&mut args, "--with-filename");
    push_owned(&mut args, "--no-heading");
    push_owned(&mut args, "--color=never");
    push_owned(&mut args, "--max-count=100");
    if ignore_case {
        push_owned(&mut args, "--ignore-case");
    }
    match file_type {
        Some(ft) => {
            push_owned(&mut args, "--type");
            push_owned(&mut args, ft.as_str());
        },
        None => {},
    }
    push_owned(&mut args, query);
    push_owned(&mut args, path);
    proof {
        assert(args@.map_values(|t: String| t@) =~= rg_args_spec(
            query@,
            path@,
            *file_type,
            ignore_case,
        ));
    }
    ProcessInvocation { program: "rg".to_owned(), args, timeout_secs: 30 }
}

/// Build the fallback invocation for one query.
pub fn grep_invocation(query: &str, path: &str, ignore_case: bool) -> (r: ProcessInvocation)
    ensures
        r.program@ == "grep"@,
        r.args@.map_values(|t: String| t@) == grep_args_spec(query@, path@, ignore_case),
{
    let mut args: Vec<String> = Vec::new();
    push_owned(&mut args, "-rn");
    if ignore_case {
        push_owned(&mut args, "-i");
    }
    push_owned(&mut args, query);
    push_owned(&mut args, path);
    proof {
        assert(args@.map_values(|t: String| t@) =~= grep_args_spec(query@, path@, ignore_case));
    }
    ProcessInvocation { program: "grep".to_owned(), args, timeout_secs: 30 }
}

/// Whether a failed primary search should fall back to the simpler tool:
/// only when the error text suggests the primary tool is missing.
pub fn should_fall_back(stderr: &str) -> (r: bool)
    ensures
        r == (contains_seq(stderr@, "ripgrep"@) || contains_seq(stderr@, "not found"@)),
{
    let v = chars_of(stderr);
    let a = chars_of("ripgrep");
    let b = chars_of("not found");
    crate::text::contains_chars(&v, &a) || crate::text::contains_chars(&v, &b)
}

// ---------------------------------------------------------------------------
// The live search browser
// ---------------------------------------------------------------------------

/// The results parsed from a sequence of output lines, in order, lines of
/// the wrong shape dropped.
pub open spec fn parsed_lines_model(ls: Seq<Seq<char>>, query: Seq<char>) -> Seq<
    (Seq<char>, int, Seq<char>, Seq<char>),
>
    decreases ls.len(),
{
    if ls.len() == 0 {
        Seq::empty()
    } else {
        parsed_lines_model(ls.drop_last(), query) + (match parsed_line_model(ls.last(), query) {
            Some(m) => seq![m],
            None => Seq::empty(),
        })
    }
}

/// What the host must do after one input event of the live search.
pub enum LiveAction {
    /// Nothing.
    Nothing,
    /// Leave the browser.
    Quit,
    /// Open the result at this index in an editor.
    Open(usize),
    /// The selection moved: rebuild the preview for it.
    Preview,
    /// Run this search invocation and hand back its output.
    Search(ProcessInvocation),
    /// The query emptied: results and preview were cleared.
    Cleared,
}

/// The live search session: the query, the current results, and the
/// selection over them.
pub struct LiveSearchBrowser {
    search_query: Vec<char>,
    results: Vec<SearchResult>,
    list: SelectableList,
    search_path: String,
    file_type: Option<String>,
    ignore_case: bool,
    should_quit: bool,
}

impl LiveSearchBrowser {
    /// The selection always stays inside the results.
    pub closed spec fn wf(self) -> bool {
        self.list.wf() && self.list.spec_total() == self.results@.len()
    }

    pub closed spec fn spec_query(self) -> Seq<char> {
        self.search_query@
    }

    pub closed spec fn spec_results(self) -> Seq<SearchResult> {
        self.results@
    }

    pub closed spec fn spec_selection(self) -> Option<usize> {
        self.list.spec_selection()
    }

    pub closed spec fn spec_path(self) -> Seq<char> {
        self.search_path@
    }

    pub closed spec fn spec_file_type(self) -> Option<String> {
        self.file_type
    }

    pub closed spec fn spec_ignore_case(self) -> bool {
        self.ignore_case
    }

    pub closed spec fn spec_quit(self) -> bool {
        self.should_quit
    }

    /// A fresh browser over `path`, with the initial pattern already in
    /// the query, and the search to run for it, if one is due.
    pub fn new(
        initial_pattern: Option<String>,
        path: String,
        file_type: Option<String>,
        ignore_case: bool,
    ) -> (r: (LiveSearchBrowser, Option<ProcessInvocation>))
        ensures
            r.0.wf(),
            !r.0.spec_quit(),
            r.0.spec_results().len() == 0,
            r.0.spec_path() == path@,
            r.0.spec_file_type() == file_type,
            r.0.spec_ignore_case() == ignore_case,
            r.0.spec_query() == (match initial_pattern {
                Some(p) => p@,
                None => Seq::<char>::empty(),
            }),
            r.0.spec_query().len() >= 2 <==> (r.1 matches Some(inv)
                && inv.program@ == "rg"@
                && inv.args@.map_values(|t: String| t@) == rg_args_spec(
                r.0.spec_query(),
                path@,
                file_type,
                ignore_case,
            )),
    {
        let search_query: Vec<char> = match &initial_pattern {
            Some(p) => chars_of(p.as_str()),
            None => Vec::new(),
        };
        let mut browser = LiveSearchBrowser {
            search_query,
            results: Vec::new(),
            list: SelectableList::new(),
            search_path: path,
            file_type,
            ignore_case,
            should_quit: false,
        };
        let inv = if browser.search_query.len() >= 2 {
            Some(browser.plan_search())
        } else {
            None
        };
        (browser, inv)
    }

    /// The invocation that searches for the current query.
    fn plan_search(&self) -> (r: ProcessInvocation)
        ensures
            r.program@ == "rg"@,
            r.args@.map_values(|t: String| t@) == rg_args_spec(
                self.spec_query(),
                self.spec_path(),
                self.spec_file_type(),
                self.spec_ignore_case(),
            ),
    {
        let q = string_from_chars(&self.search_query);
        rg_invocation(q.as_str(), self.search_path.as_str(), &self.file_type, self.ignore_case)
    }

    /// Plan the search for the current query.  A query of fewer than two
    /// characters plans nothing and clears the results; a longer query
    /// plans exactly one run of the search tool.
    pub fn perform_live_search(&mut self) -> (r: Option<ProcessInvocation>)
        requires
            old(self).wf(),
        ensures
            final(self).wf(),
            final(self).spec_query() == old(self).spec_query(),
            final(self).spec_path() == old(self).spec_path(),
            final(self).spec_file_type() == old(self).spec_file_type(),
            final(self).spec_ignore_case() == old(self).spec_ignore_case(),
            final(self).spec_quit() == old(self).spec_quit(),
            old(self).spec_query().len() < 2 ==> r is None && final(self).spec_results().len() == 0
                && final(self).spec_selection() is None,
            old(self).spec_query().len() >= 2 ==> (r matches Some(inv)
                && inv.program@ == "rg"@
                && inv.args@.map_values(|t: String| t@) == rg_args_spec(
                old(self).spec_query(),
                old(self).spec_path(),
                old(self).spec_file_type(),
                old(self).spec_ignore_case(),
            ) && final(self).spec_results() == old(self).spec_results()
                && final(self).spec_selection() == old(self).spec_selection()),
    {
        if self.search_query.len() < 2 {
            self.results = Vec::new();
            self.list.reset(0);
            None
        } else {
            Some(self.plan_search())
        }
    }

    /// Take in what one search run produced: parse its output lines in
    /// order, dropping malformed ones, and reset the selection to the
    /// first result of a non-empty set.
    pub fn apply_search_output(&mut self, stdout: Option<String>)
        requires
            old(self).wf(),
        ensures
            final(self).wf(),
            final(self).spec_query() == old(self).spec_query(),
            final(self).spec_path() == old(self).spec_path(),
            final(self).spec_quit() == old(self).spec_quit(),
            stdout matches Some(out) ==> final(self).spec_results().map_values(
                |r: SearchResult| result_model(r),
            ) == parsed_lines_model(crate::text::lines_of(out@), old(self).spec_query()),
            stdout is None ==> final(self).spec_results().len() == 0,
            final(self).spec_selection() == reset_selection_spec(
                final(self).spec_results().len() as int,
            ),
    {
        let mut results: Vec<SearchResult> = Vec::new();
        match &stdout {
            Some(out) => {
                let v = chars_of(out.as_str());
                let lines = crate::text::split_lines(&v);
                let q = string_from_chars(&self.search_query);
                let ghost ls = crate::text::lines_of(out@);
                proof {
                    assert(results@.map_values(|r: SearchResult| result_model(r))
                        =~= parsed_lines_model(ls.take(0), q@));
                }
                let mut i: usize = 0;
                while i < lines.len()
                    invariant
                        i <= lines@.len(),
                        lines@.len() == ls.len(),
                        forall|k: int| 0 <= k < ls.len() ==> (#[trigger] lines@[k])@ == ls[k],
                        q@ == self.search_query@,
                        results@.map_values(|r: SearchResult| result_model(r))
                            == parsed_lines_model(ls.take(i as int), q@),
                    decreases lines@.len() - i,
                {
                    proof {
                        assert(ls.take(i + 1).drop_last() =~= ls.take(i as int));
                        assert(ls.take(i + 1).last() == ls[i as int]);
                    }
                    match parse_ripgrep_line(lines[i].as_str(), q.as_str()) {
                        Some(sr) => {
                            let ghost before = results@;
                            results.push(sr);
                            proof {
                                assert(results@.map_values(|r: SearchResult| result_model(r))
                                    =~= before.map_values(|r: SearchResult| result_model(r)).push(
                                    result_model(sr),
                                ));
                                assert(results@.map_values(|r: SearchResult| result_model(r))
                                    =~= parsed_lines_model(ls.take(i + 1), q@));
                            }
                        },
                        None => {
                            proof {
                                assert(results@.map_values(|r: SearchResult| result_model(r))
                                    =~= parsed_lines_model(ls.take(i + 1), q@));
                            }
                        },
                    }
                    i += 1;
                }
                proof {
                    assert(ls.take(ls.len() as int) =~= ls);
                }
            },
            None => {},
        }
        self.results = results;
        let len = self.results.len();
        self.list.reset(len);
    }

    /// Drive the browser by one polled key event.  Typing plans a fresh
    /// search per keystroke; queries shorter than two characters clear the
    /// results and plan nothing.
    pub fn handle_input(&mut self, key: Key, ctrl: bool) -> (r: LiveAction)
        requires
            old(self).wf(),
        ensures
            final(self).wf(),
            final(self).spec_path() == old(self).spec_path(),
            final(self).spec_file_type() == old(self).spec_file_type(),
            final(self).spec_ignore_case() == old(self).spec_ignore_case(),
            key == Key::Esc || key == Key::Char('q') || (key == Key::Char('c') && ctrl) ==> (r
                == LiveAction::Quit && final(self).spec_quit()
                && final(self).spec_results() == old(self).spec_results()
                && final(self).spec_query() == old(self).spec_query()
                && final(self).spec_selection() == old(self).spec_selection()),
            key == Key::Char('f') && ctrl ==> (final(self).spec_selection() == page_forward_spec(
                old(self).spec_selection(),
                old(self).spec_results().len() as int,
                10,
            ) && final(self).spec_results() == old(self).spec_results()
                && final(self).spec_query() == old(self).spec_query()
                && r == (if final(self).spec_selection() is Some {
                LiveAction::Preview
            } else {
                LiveAction::Nothing
            })),
            key == Key::Char('b') && ctrl ==> (final(self).spec_selection() == page_backward_spec(
                old(self).spec_selection(),
                10,
            ) && final(self).spec_results() == old(self).spec_results()
                && final(self).spec_query() == old(self).spec_query()
                && r == (if final(self).spec_selection() is Some {
                LiveAction::Preview
            } else {
                LiveAction::Nothing
            })),
            key == Key::Up ==> (final(self).spec_selection() == crate::selection::
            prev_selection_spec(old(self).spec_selection())
                && final(self).spec_results() == old(self).spec_results()
                && final(self).spec_query() == old(self).spec_query()
                && r == (if old(self).spec_selection() matches Some(i) && i > 0 {
                LiveAction::Preview
            } else {
                LiveAction::Nothing
            })),
            key == Key::Down ==> (final(self).spec_selection() == crate::selection::
            next_selection_spec(
                old(self).spec_selection(),
                old(self).spec_results().len() as int,
            ) && final(self).spec_results() == old(self).spec_results()
                && final(self).spec_query() == old(self).spec_query()
                && r == (if final(self).spec_selection() != old(self).spec_selection() {
                LiveAction::Preview
            } else {
                LiveAction::Nothing
            })),
            key == Key::Enter ==> (final(self).spec_results() == old(self).spec_results()
                && final(self).spec_query() == old(self).spec_query()
                && final(self).spec_selection() == old(self).spec_selection()
                && r == (match old(self).spec_selection() {
                Some(i) => LiveAction::Open(i),
                None => LiveAction::Nothing,
            })),
            typed_char(key, ctrl) matches Some(c) ==> ({
                let q2 = final(self).spec_query();
                &&& q2 == old(self).spec_query().push(c)
                &&& q2.len() >= 2 ==> (r matches LiveAction::Search(inv)
                    && inv.program@ == "rg"@
                    && inv.args@.map_values(|t: String| t@) == rg_args_spec(
                    q2,
                    old(self).spec_path(),
                    old(self).spec_file_type(),
                    old(self).spec_ignore_case(),
                ))
                &&& q2.len() < 2 ==> (r == LiveAction::Nothing && final(
                    self).spec_results().len() == 0)
            }),
            key == Key::Backspace ==> ({
                let q0 = old(self).spec_query();
                let q2 = final(self).spec_query();
                &&& (q2 == q0.drop_last() || (q0.len() == 0 && q2.len() == 0))
                &&& q2.len() == 0 ==> (r == LiveAction::Cleared && final(
                    self).spec_results().len() == 0 && final(self).spec_selection() is None)
                &&& q2.len() >= 2 ==> (r matches LiveAction::Search(inv) && inv.program@ == "rg"@)
                &&& (1 <= q2.len() && q2.len() < 2) ==> (r == LiveAction::Nothing && final(
                    self).spec_results().len() == 0)
            }),
    {
        match key {
            Key::Char(c) => {
                if c == 'q' {
                    self.should_quit = true;
                    LiveAction::Quit
                } else if c == 'c' && ctrl {
                    self.should_quit = true;
                    LiveAction::Quit
                } else if c == 'f' && ctrl {
                    self.list.page_forward(10);
                    if self.list.selection().is_some() {
                        LiveAction::Preview
                    } else {
                        LiveAction::Nothing
                    }
                } else if c == 'b' && ctrl {
                    self.list.page_backward(10);
                    if self.list.selection().is_some() {
                        LiveAction::Preview
                    } else {
                        LiveAction::Nothing
                    }
                } else {
                    self.search_query.push(c);
                    match self.perform_live_search() {
                        Some(inv) => LiveAction::Search(inv),
                        None => LiveAction::Nothing,
                    }
                }
            },
            Key::Esc => {
                self.should_quit = true;
                LiveAction::Quit
            },
            Key::Up => {
                let moved = match self.list.selection() {
                    Some(i) => i > 0,
                    None => false,
                };
                self.list.select_prev();
                if moved {
                    LiveAction::Preview
                } else {
                    LiveAction::Nothing
                }
            },
            Key::Down => {
                let before = self.list.selection();
                self.list.select_next();
                if self.list.selection() != before {
                    LiveAction::Preview
                } else {
                    LiveAction::Nothing
                }
            },
            Key::Enter => {
                match self.list.selection() {
                    Some(i) => LiveAction::Open(i),
                    None => LiveAction::Nothing,
                }
            },
            Key::Backspace => {
                let popped = self.search_query.pop();
                proof {
                    if old(self).spec_query().len() == 0 {
                        assert(self.search_query@ =~= old(self).spec_query());
                    }
                }
                if self.search_query.len() == 0 {
                    self.results = Vec::new();
                    self.list.reset(0);
                    LiveAction::Cleared
                } else {
                    match self.perform_live_search() {
                        Some(inv) => LiveAction::Search(inv),
                        None => LiveAction::Nothing,
                    }
                }
            },
            _ => LiveAction::Nothing,
        }
    }

    /// The result the selection rests on, if any.
    pub fn selected_result(&self) -> (r: Option<&SearchResult>)
        requires
            self.wf(),
        ensures
            match self.spec_selection() {
                Some(i) => r matches Some(sr) && *sr == self.spec_results()[i as int],
                None => r is None,
            },
    {
        match self.list.selection() {
            Some(i) => Some(&self.results[i]),
            None => None,
        }
    }

    /// The current results, for rendering.
    pub fn results(&self) -> (r: &Vec<SearchResult>)
        ensures
            r@ == self.spec_results(),
    {
        &self.results
    }

    /// The current selection, for rendering.
    pub fn selection(&self) -> (r: Option<usize>)
        ensures
            r == self.spec_selection(),
    {
        self.list.selection()
    }

    /// The current query, for rendering.
    pub fn query_string(&self) -> (r: String)
        ensures
            r@ == self.spec_query(),
    {
        string_from_chars(&self.search_query)
    }

    /// Whether a quit key was seen.
    pub fn should_quit(&self) -> (r: bool)
        ensures
            r == self.spec_quit(),
    {
        self.should_quit
    }
}

/// The character a key event types into the query: any character key but
/// the quit key and the control chords the browser reserves.
pub open spec fn typed_char(key: Key, ctrl: bool) -> Option<char> {
    match key {
        Key::Char(c) => if c == 'q' || (ctrl && (c == 'c' || c == 'f' || c == 'b')) {
            None
        } else {
            Some(c)
        },
        _ => None,
    }
}

} // verus!
