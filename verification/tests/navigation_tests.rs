use terminal_tools::selection::{common_help_text, handle_page_navigation, Key, SelectableList};

#[test]
fn test_handle_page_navigation_ctrl_f() {
    // Test Ctrl-F (page forward)
    let result = handle_page_navigation(Key::Char('f'), true, Some(5), 100, 10);
    assert_eq!(result, Some(15)); // 5 + 10 = 15
}

#[test]
fn test_handle_page_navigation_ctrl_f_near_end() {
    // Test Ctrl-F near the end of list
    let result = handle_page_navigation(Key::Char('f'), true, Some(95), 100, 10);
    assert_eq!(result, Some(99)); // Clamped to last item (99)
}

#[test]
fn test_handle_page_navigation_ctrl_b() {
    // Test Ctrl-B (page backward)
    let result = handle_page_navigation(Key::Char('b'), true, Some(15), 100, 10);
    assert_eq!(result, Some(5)); // 15 - 10 = 5
}

#[test]
fn test_handle_page_navigation_ctrl_b_near_start() {
    // Test Ctrl-B near the start of list
    let result = handle_page_navigation(Key::Char('b'), true, Some(5), 100, 10);
    assert_eq!(result, Some(0)); // Saturating sub to 0
}

#[test]
fn test_handle_page_navigation_empty_list() {
    // Test with empty list
    let result = handle_page_navigation(Key::Char('f'), true, None, 0, 10);
    assert_eq!(result, None);
}

#[test]
fn test_handle_page_navigation_no_selection() {
    // Test Ctrl-F with no current selection but non-empty list
    let result = handle_page_navigation(Key::Char('f'), true, None, 100, 10);
    assert_eq!(result, Some(0)); // Should start at beginning

    // Test Ctrl-B with no current selection
    let result = handle_page_navigation(Key::Char('b'), true, None, 100, 10);
    assert_eq!(result, None); // Should remain None
}

#[test]
fn test_handle_page_navigation_other_keys() {
    // Test that other keys don't change selection
    let result = handle_page_navigation(Key::Char('j'), false, Some(5), 100, 10);
    assert_eq!(result, Some(5)); // No change

    let result = handle_page_navigation(Key::Enter, false, Some(5), 100, 10);
    assert_eq!(result, Some(5)); // No change
}

#[test]
fn test_handle_page_navigation_f_without_ctrl() {
    // Test 'f' without Ctrl modifier
    let result = handle_page_navigation(Key::Char('f'), false, Some(5), 100, 10);
    assert_eq!(result, Some(5)); // No change
}

#[test]
fn test_common_help_text() {
    let help = common_help_text();
    assert!(!help.is_empty());
    assert!(help.iter().any(|&s| s.contains("Navigate")));
    assert!(help.iter().any(|&s| s.contains("Select")));
    assert!(help.iter().any(|&s| s.contains("Page")));
    assert!(help.iter().any(|&s| s.contains("Quit")));
}

#[test]
fn page_forward_from_five_in_eight_clamps_to_seven() {
    // Selection Some(5), page size 10, total 8: clamped to the last index.
    let result = handle_page_navigation(Key::Char('f'), true, Some(5), 8, 10);
    assert_eq!(result, Some(7));
}

#[test]
fn reset_selects_first_iff_non_empty() {
    let mut list = SelectableList::new();
    assert_eq!(list.selection(), None);
    list.reset(3);
    assert_eq!(list.selection(), Some(0));
    list.reset(0);
    assert_eq!(list.selection(), None);
    list.reset(1);
    assert_eq!(list.selection(), Some(0));
}

#[test]
fn selection_moves_without_wrapping() {
    let mut list = SelectableList::new();
    list.reset(2);
    list.select_prev();
    assert_eq!(list.selection(), Some(0)); // no wrap at the start
    list.select_next();
    assert_eq!(list.selection(), Some(1));
    list.select_next();
    assert_eq!(list.selection(), Some(1)); // no wrap at the end
}

#[test]
fn paging_stays_inside_the_list() {
    let mut list = SelectableList::new();
    list.reset(8);
    list.page_forward(100);
    assert_eq!(list.selection(), Some(7));
    list.page_forward(1);
    assert_eq!(list.selection(), Some(7));
    list.page_backward(3);
    assert_eq!(list.selection(), Some(4));
    list.page_backward(100);
    assert_eq!(list.selection(), Some(0));
}
