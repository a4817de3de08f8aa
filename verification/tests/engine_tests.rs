use terminal_tools::bridge::{bridge_outcome, BridgeOutcome, ProcessOutput};
use terminal_tools::entries::{ManPage, Process};
use terminal_tools::filter::static_filter;
use terminal_tools::find::accept_file_path;
use terminal_tools::git::GitDiffBrowser;
use terminal_tools::preview::{directory_preview, file_preview, DirChild, FileReadOutcome,
    Preview};
use terminal_tools::search::{
    extract_match, grep_invocation, parse_ripgrep_line, rg_invocation, should_fall_back,
    LiveAction, LiveSearchBrowser,
};
use terminal_tools::selection::Key;
use terminal_tools::session::{Session, SessionAction};
use terminal_tools::text::{parse_u32_chars, take_lines, u32_to_string, u64_to_string};

fn names(v: &[String]) -> Vec<&str> {
    v.iter().map(|s| s.as_str()).collect()
}

#[test]
fn static_filter_keeps_matching_entries_in_order() {
    // Entry set ["main.rs","lib.rs","README.md"], query "rs": the first two
    // survive, in order, and the fresh selection is the first of them.
    let entries = vec!["main.rs".to_string(), "lib.rs".to_string(), "README.md".to_string()];
    let filtered = static_filter(&entries, "rs");
    assert_eq!(names(&filtered), vec!["main.rs", "lib.rs"]);
    let session = Session::new(entries, "rs");
    assert_eq!(session.selection(), Some(0));
    assert_eq!(names(session.filtered()), vec!["main.rs", "lib.rs"]);
}

#[test]
fn static_filter_is_case_insensitive_both_ways() {
    let entries = vec!["main.rs".to_string(), "LIB.RS".to_string(), "README.md".to_string()];
    // An upper-case query still finds lower-case entries: both sides are
    // folded before matching.
    let filtered = static_filter(&entries, "RS");
    assert_eq!(names(&filtered), vec!["main.rs", "LIB.RS"]);
}

#[test]
fn static_filter_result_is_matching_subset() {
    let entries = vec!["alpha".to_string(), "beta".to_string(), "gamma".to_string()];
    let filtered = static_filter(&entries, "a");
    for e in filtered.iter() {
        assert!(entries.contains(e));
        assert!(e.to_lowercase().contains("a"));
    }
}

#[test]
fn static_filter_twice_gives_same_set() {
    let entries = vec!["one".to_string(), "two".to_string(), "three".to_string()];
    let once = static_filter(&entries, "t");
    let twice = static_filter(&once, "t");
    assert_eq!(once, twice);
}

#[test]
fn empty_query_keeps_everything() {
    let entries = vec!["a".to_string(), "b".to_string()];
    let filtered = static_filter(&entries, "");
    assert_eq!(filtered, entries);
}

#[test]
fn filter_searches_every_field() {
    let pages = vec![
        ManPage { name: "ls".to_string(), section: "1".to_string(), description: "list directory contents".to_string() },
        ManPage { name: "cp".to_string(), section: "1".to_string(), description: "copy files".to_string() },
    ];
    let by_description = static_filter(&pages, "directory");
    assert_eq!(by_description.len(), 1);
    assert_eq!(by_description[0].name, "ls");

    let procs = vec![
        Process { pid: 4321, name: "bash".to_string(), cpu_tenths: 12, memory_tenths: 3, command: "/bin/bash".to_string() },
        Process { pid: 77, name: "cargo".to_string(), cpu_tenths: 950, memory_tenths: 40, command: "cargo build".to_string() },
    ];
    // The process id is searchable as its decimal text.
    let by_pid = static_filter(&procs, "4321");
    assert_eq!(by_pid.len(), 1);
    assert_eq!(by_pid[0].name, "bash");
}

#[test]
fn session_typing_refilters_and_resets() {
    let entries = vec!["main.rs".to_string(), "lib.rs".to_string(), "README.md".to_string()];
    let mut session = Session::new(entries, "");
    assert_eq!(session.filtered().len(), 3);
    let act = session.step(Key::Char('r'), false);
    assert!(matches!(act, SessionAction::Refiltered));
    let act = session.step(Key::Char('s'), false);
    assert!(matches!(act, SessionAction::Refiltered));
    assert_eq!(session.query_string(), "rs");
    assert_eq!(names(session.filtered()), vec!["main.rs", "lib.rs"]);
    assert_eq!(session.selection(), Some(0));
    // Backspace widens the filter again.
    let act = session.step(Key::Backspace, false);
    assert!(matches!(act, SessionAction::Refiltered));
    assert_eq!(session.query_string(), "r");
    assert_eq!(session.filtered().len(), 3);
}

#[test]
fn session_navigation_and_open() {
    let entries = vec!["a".to_string(), "b".to_string(), "c".to_string()];
    let mut session = Session::new(entries, "");
    assert!(matches!(session.step(Key::Down, false), SessionAction::Preview));
    assert_eq!(session.selection(), Some(1));
    assert!(matches!(session.step(Key::Up, false), SessionAction::Preview));
    assert_eq!(session.selection(), Some(0));
    assert!(matches!(session.step(Key::Enter, false), SessionAction::Open(0)));
    assert!(matches!(session.step(Key::Esc, false), SessionAction::Quit));
    assert!(session.should_quit());
}

#[test]
fn parse_ripgrep_line_accepts_three_fields() {
    let r = parse_ripgrep_line("src/main.rs:42:fn main() {}", "main").unwrap();
    assert_eq!(r.file_path, "src/main.rs");
    assert_eq!(r.line_number, 42);
    assert_eq!(r.line_content, "fn main() {}");
    assert_eq!(r.matched_text, "main");
}

#[test]
fn parse_ripgrep_line_keeps_colons_in_content() {
    let r = parse_ripgrep_line("a.txt:7:key: value", "key").unwrap();
    assert_eq!(r.file_path, "a.txt");
    assert_eq!(r.line_number, 7);
    assert_eq!(r.line_content, "key: value");
}

#[test]
fn parse_ripgrep_line_drops_malformed_lines() {
    assert!(parse_ripgrep_line("no colons here", "x").is_none());
    assert!(parse_ripgrep_line("only:one colon", "x").is_none());
    assert!(parse_ripgrep_line("file.rs:notanumber:content", "x").is_none());
    assert!(parse_ripgrep_line("file.rs:99999999999:content", "x").is_none());
}

#[test]
fn extract_match_cuts_the_original_casing() {
    assert_eq!(extract_match("Hello World", "world"), "World");
    assert_eq!(extract_match("nothing here", "absent"), "absent");
}

#[test]
fn bridge_outcome_ranks_timeout_first() {
    let out = ProcessOutput {
        success: true,
        stdout: "data".to_string(),
        stderr: "".to_string(),
        elapsed_secs: 9,
    };
    assert!(matches!(bridge_outcome(out, 5), BridgeOutcome::Timeout));

    let out = ProcessOutput {
        success: true,
        stdout: "data".to_string(),
        stderr: "".to_string(),
        elapsed_secs: 1,
    };
    match bridge_outcome(out, 5) {
        BridgeOutcome::Stdout(s) => assert_eq!(s, "data"),
        _ => panic!("expected captured stdout"),
    }

    let out = ProcessOutput {
        success: false,
        stdout: "".to_string(),
        stderr: "boom".to_string(),
        elapsed_secs: 1,
    };
    match bridge_outcome(out, 5) {
        BridgeOutcome::Failure(s) => assert_eq!(s, "boom"),
        _ => panic!("expected captured stderr"),
    }
}

#[test]
fn rg_invocation_builds_the_documented_arguments() {
    let inv = rg_invocation("needle", "/srv", &Some("rust".to_string()), true);
    assert_eq!(inv.program, "rg");
    assert_eq!(
        names(&inv.args),
        vec![
            "--line-number",
            "--with-filename",
            "--no-heading",
            "--color=never",
            "--max-count=100",
            "--ignore-case",
            "--type",
            "rust",
            "needle",
            "/srv",
        ]
    );

    let inv = rg_invocation("needle", ".", &None, false);
    assert_eq!(
        names(&inv.args),
        vec![
            "--line-number",
            "--with-filename",
            "--no-heading",
            "--color=never",
            "--max-count=100",
            "needle",
            ".",
        ]
    );
}

#[test]
fn grep_invocation_builds_the_fallback_arguments() {
    let inv = grep_invocation("pat", "/tmp", true);
    assert_eq!(inv.program, "grep");
    assert_eq!(names(&inv.args), vec!["-rn", "-i", "pat", "/tmp"]);
    assert!(should_fall_back("rg: command not found"));
    assert!(should_fall_back("error: ripgrep missing"));
    assert!(!should_fall_back("permission denied"));
}

#[test]
fn short_query_spawns_nothing_and_clears() {
    let (mut browser, inv) = LiveSearchBrowser::new(None, ".".to_string(), None, false);
    assert!(inv.is_none());
    // One typed character: still below the threshold, nothing is spawned.
    let act = browser.handle_input(Key::Char('a'), false);
    assert!(matches!(act, LiveAction::Nothing));
    assert_eq!(browser.results().len(), 0);
    // The second character crosses the threshold: exactly one invocation.
    let act = browser.handle_input(Key::Char('b'), false);
    match act {
        LiveAction::Search(inv) => {
            assert_eq!(inv.program, "rg");
            assert_eq!(inv.args[inv.args.len() - 2], "ab");
        },
        _ => panic!("a two-character query must plan a search"),
    }
}

#[test]
fn live_search_applies_output_and_selects_first() {
    let (mut browser, _) =
        LiveSearchBrowser::new(Some("fn".to_string()), ".".to_string(), None, false);
    let stdout = "src/a.rs:1:fn one() {}\nmangled line\nsrc/b.rs:2:fn two() {}\n";
    browser.apply_search_output(Some(stdout.to_string()));
    assert_eq!(browser.results().len(), 2);
    assert_eq!(browser.selection(), Some(0));
    assert_eq!(browser.results()[0].file_path, "src/a.rs");
    assert_eq!(browser.results()[1].line_number, 2);
    // Backspacing the query away clears the results.
    browser.handle_input(Key::Backspace, false);
    let act = browser.handle_input(Key::Backspace, false);
    assert!(matches!(act, LiveAction::Cleared));
    assert_eq!(browser.results().len(), 0);
    assert_eq!(browser.selection(), None);
}

#[test]
fn missing_path_preview_is_an_error_naming_the_path() {
    // A path that does not exist reaches the dispatcher as a failed read
    // without metadata; the preview is an error that carries the path.
    let p = file_preview("no/such/path.txt", FileReadOutcome::Missing);
    match p {
        Preview::Error { message } => assert!(message.contains("no/such/path.txt")),
        _ => panic!("expected an error preview"),
    }
}

#[test]
fn text_preview_truncates_after_fifty_lines() {
    let mut long = String::new();
    for i in 0..60 {
        long.push_str(&format!("line {}\n", i));
    }
    match file_preview("big.txt", FileReadOutcome::Content(long)) {
        Preview::Text { lines, truncated } => {
            assert!(truncated);
            assert_eq!(lines.len(), 50);
            assert_eq!(lines[0], "line 0");
            assert_eq!(lines[49], "line 49");
        },
        _ => panic!("expected a text preview"),
    }
    match file_preview("small.txt", FileReadOutcome::Content("a\nb\n".to_string())) {
        Preview::Text { lines, truncated } => {
            assert!(!truncated);
            assert_eq!(lines, vec!["a", "b"]);
        },
        _ => panic!("expected a text preview"),
    }
}

#[test]
fn unreadable_file_preview_reports_size() {
    match file_preview("blob.bin", FileReadOutcome::Unreadable { size: 1234, modified: None }) {
        Preview::BinaryInfo { size, note, .. } => {
            assert_eq!(size, 1234);
            assert!(note.contains("1234 bytes"));
            assert!(note.contains("blob.bin"));
            assert!(note.contains("[Binary file or read error]"));
        },
        _ => panic!("expected a binary info preview"),
    }
}

#[test]
fn directory_preview_caps_and_distinguishes_failures() {
    let children: Vec<DirChild> = (0..25)
        .map(|i| DirChild { name: format!("f{}", i), is_directory: i % 2 == 0 })
        .collect();
    match directory_preview(Some(children)) {
        Preview::Directory { entries, truncated } => {
            assert!(truncated);
            assert_eq!(entries.len(), 20);
        },
        _ => panic!("expected a directory preview"),
    }
    match directory_preview(Some(Vec::new())) {
        Preview::Directory { entries, truncated } => {
            assert!(!truncated);
            assert!(entries.is_empty());
        },
        _ => panic!("expected an empty directory preview"),
    }
    match directory_preview(None) {
        Preview::Error { message } => assert_eq!(message, "[Permission denied]"),
        _ => panic!("expected a permission error"),
    }
}

#[test]
fn diff_browser_reports_and_scrolls() {
    let browser = GitDiffBrowser::new(None);
    assert_eq!(browser.status_message(), "Error: Not a git repository or git not found");

    let browser = GitDiffBrowser::new(Some("   \n".to_string()));
    assert_eq!(browser.content(), "No changes to show");
    assert_eq!(browser.status_message(), "Working tree clean");

    let diff = "diff --git a b\n+new\n-old\n";
    let mut browser = GitDiffBrowser::new(Some(diff.to_string()));
    assert_eq!(browser.status_message(), "Git diff (3 lines)");
    assert_eq!(browser.scroll_offset(), 0);
    browser.page_down();
    assert_eq!(browser.scroll_offset(), 2); // clamped to the last line
    browser.page_up();
    assert_eq!(browser.scroll_offset(), 0);
}

#[test]
fn diff_browser_run_stops_at_quit() {
    let mut text = String::new();
    for i in 0..100 {
        text.push_str(&format!("line {}\n", i));
    }
    let mut browser = GitDiffBrowser::new(Some(text));
    let keys = vec![
        (Key::Down, false),
        (Key::Down, false),
        (Key::Char('f'), true),
        (Key::Char('q'), false),
        (Key::End, false),
    ];
    browser.run(&keys);
    assert!(browser.should_quit());
    // Two steps down, one page of twenty; the keys after the quit key are
    // never applied.
    assert_eq!(browser.scroll_offset(), 22);
}

#[test]
fn finder_accepts_by_extension_and_skips_build_dirs() {
    let no_filter: Option<Vec<String>> = None;
    assert!(accept_file_path("src/main.rs", &no_filter));
    assert!(!accept_file_path("repo/.git/config", &no_filter));
    assert!(!accept_file_path("repo/node_modules/x.js", &no_filter));
    assert!(!accept_file_path("repo/target/debug/x", &no_filter));
    let rs_only: Option<Vec<String>> = Some(vec!["rs".to_string(), "toml".to_string()]);
    assert!(accept_file_path("src/main.rs", &rs_only));
    assert!(accept_file_path("Cargo.TOML", &rs_only)); // case-insensitive
    assert!(!accept_file_path("README.md", &rs_only));
    assert!(!accept_file_path("no_extension", &rs_only));
}

#[test]
fn take_lines_caps_and_reports_truncation() {
    let (kept, truncated) = take_lines("a\nb\nc\nd\n", 2);
    assert_eq!(kept, "a\nb");
    assert!(truncated);
    let (kept, truncated) = take_lines("a\nb", 5);
    assert_eq!(kept, "a\nb");
    assert!(!truncated);
}

#[test]
fn decimal_rendering_and_parsing_agree() {
    assert_eq!(u32_to_string(0), "0");
    assert_eq!(u32_to_string(42), "42");
    assert_eq!(u32_to_string(u32::MAX), "4294967295");
    assert_eq!(u64_to_string(1_000_000_007), "1000000007");
    let digits: Vec<char> = "4294967295".chars().collect();
    assert_eq!(parse_u32_chars(&digits), Some(u32::MAX));
    let over: Vec<char> = "4294967296".chars().collect();
    assert_eq!(parse_u32_chars(&over), None);
    let junk: Vec<char> = "12a".chars().collect();
    assert_eq!(parse_u32_chars(&junk), None);
    let empty: Vec<char> = Vec::new();
    assert_eq!(parse_u32_chars(&empty), None);
}
