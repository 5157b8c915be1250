use lambda_log_viewer::entry::LogEntry;
use lambda_log_viewer::log_viewer::LogViewer;

fn entries(messages: &[&str]) -> Vec<LogEntry> {
    messages
        .iter()
        .enumerate()
        .map(|(i, m)| LogEntry::new(1000 + i as i64, m.to_string(), 2000 + i as i64))
        .collect()
}

fn viewer_with(messages: &[&str]) -> LogViewer {
    let mut viewer = LogViewer::new("orders".to_string(), 10, 20);
    viewer.initialize(entries(messages));
    viewer
}

fn numbered(count: usize) -> LogViewer {
    let messages: Vec<String> = (0..count).map(|i| format!("line {}", i)).collect();
    let refs: Vec<&str> = messages.iter().map(|m| m.as_str()).collect();
    viewer_with(&refs)
}

fn shown(viewer: &LogViewer) -> Vec<String> {
    (0..viewer.filtered_len())
        .map(|row| viewer.filtered_log(row).unwrap().message().to_string())
        .collect()
}

#[test]
fn new_viewer_is_empty() {
    let viewer = LogViewer::new("orders".to_string(), 10, 20);
    assert_eq!(viewer.function_name(), "orders");
    assert_eq!(viewer.from_date(), 10);
    assert_eq!(viewer.to_date(), 20);
    assert_eq!(viewer.logs().len(), 0);
    assert_eq!(viewer.filtered_len(), 0);
    assert_eq!(viewer.filter_input(), "");
    assert_eq!(viewer.selected_log(), None);
    assert!(!viewer.expanded());
    assert_eq!(viewer.scroll_position(), 0);
    assert_eq!(viewer.start_index(), 0);
    assert_eq!(viewer.scroll_offset(), 0);
    assert!(viewer.get_selected_log().is_none());
}

#[test]
fn one_keyword_keeps_matching_entries_in_order() {
    let mut viewer = viewer_with(&["error A", "warn B", "error B"]);
    viewer.set_filter("error".to_string());
    assert_eq!(viewer.filtered_len(), 2);
    assert_eq!(shown(&viewer), vec!["error A", "error B"]);
    assert_eq!(viewer.selected_log(), Some(0));
}

#[test]
fn two_keywords_must_both_occur() {
    let mut viewer = viewer_with(&["error A", "warn B", "error B"]);
    viewer.set_filter("error B".to_string());
    assert_eq!(shown(&viewer), vec!["error B"]);
    assert_eq!(viewer.selected_log(), Some(0));
    assert_eq!(viewer.get_selected_log().unwrap().timestamp(), 1002);
}

#[test]
fn empty_filter_shows_the_whole_collection() {
    let mut viewer = viewer_with(&["error A", "warn B", "error B"]);
    assert_eq!(shown(&viewer), vec!["error A", "warn B", "error B"]);
    viewer.set_filter("warn".to_string());
    assert_eq!(viewer.filtered_len(), 1);
    viewer.set_filter(String::new());
    assert_eq!(shown(&viewer), vec!["error A", "warn B", "error B"]);
    assert_eq!(viewer.selected_log(), Some(0));
}

#[test]
fn filter_without_match_selects_nothing() {
    let mut viewer = viewer_with(&["error A", "warn B", "error B"]);
    viewer.set_filter("fatal".to_string());
    assert_eq!(viewer.filtered_len(), 0);
    assert_eq!(viewer.selected_log(), None);
    assert!(viewer.get_selected_log().is_none());
    viewer.move_selection(1, 10);
    assert_eq!(viewer.selected_log(), None);
}

#[test]
fn filter_change_resets_cursor_and_ends_expand_mode() {
    let mut viewer = viewer_with(&["error A", "warn B", "error B"]);
    viewer.move_selection(1, 10);
    viewer.move_selection(1, 10);
    viewer.toggle_expand();
    assert_eq!(viewer.selected_log(), Some(2));
    assert!(viewer.expanded());
    viewer.push_filter_char('e');
    assert_eq!(viewer.filter_input(), "e");
    assert_eq!(viewer.selected_log(), Some(0));
    assert!(!viewer.expanded());
}

#[test]
fn filter_is_typed_and_erased_a_character_at_a_time() {
    let mut viewer = viewer_with(&["error A", "warn B", "error B"]);
    viewer.push_filter_char('W');
    viewer.push_filter_char('a');
    assert_eq!(viewer.filter_input(), "Wa");
    assert_eq!(shown(&viewer), vec!["warn B"]);
    viewer.pop_filter_char();
    assert_eq!(viewer.filter_input(), "W");
    viewer.pop_filter_char();
    viewer.pop_filter_char();
    assert_eq!(viewer.filter_input(), "");
    assert_eq!(viewer.filtered_len(), 3);
}

#[test]
fn update_filter_recomputes_from_the_current_text() {
    let mut viewer = viewer_with(&["error A", "warn B", "error B"]);
    viewer.set_filter("b".to_string());
    viewer.move_selection(1, 10);
    assert_eq!(viewer.selected_log(), Some(1));
    viewer.update_filter();
    assert_eq!(shown(&viewer), vec!["warn B", "error B"]);
    assert_eq!(viewer.selected_log(), Some(0));
}

#[test]
fn initialize_replaces_the_collection() {
    let mut viewer = viewer_with(&["old one", "old two"]);
    viewer.set_filter("new".to_string());
    assert_eq!(viewer.filtered_len(), 0);
    viewer.initialize(entries(&["new one", "other", "new two"]));
    assert_eq!(viewer.logs().len(), 3);
    assert_eq!(shown(&viewer), vec!["new one", "new two"]);
    assert_eq!(viewer.selected_log(), Some(0));
}

#[test]
fn cursor_stops_at_both_ends() {
    let mut viewer = numbered(3);
    viewer.move_selection(-1, 10);
    assert_eq!(viewer.selected_log(), Some(0));
    viewer.move_selection(1, 10);
    assert_eq!(viewer.selected_log(), Some(1));
    viewer.move_selection(1, 10);
    assert_eq!(viewer.selected_log(), Some(2));
    for _ in 0..5 {
        viewer.move_selection(1, 10);
        assert_eq!(viewer.selected_log(), Some(2));
    }
    viewer.move_selection(0, 10);
    assert_eq!(viewer.selected_log(), Some(1));
}

#[test]
fn list_viewport_follows_the_cursor() {
    let mut viewer = numbered(30);
    for expected in 1..5 {
        viewer.move_selection(1, 5);
        assert_eq!(viewer.selected_log(), Some(expected));
        assert_eq!(viewer.start_index(), 0);
    }
    viewer.move_selection(1, 5);
    assert_eq!(viewer.selected_log(), Some(5));
    assert_eq!(viewer.start_index(), 1);
    viewer.move_selection(1, 5);
    assert_eq!(viewer.start_index(), 2);
    viewer.move_selection(-1, 5);
    viewer.move_selection(-1, 5);
    viewer.move_selection(-1, 5);
    assert_eq!(viewer.selected_log(), Some(3));
    assert_eq!(viewer.start_index(), 2);
    viewer.move_selection(-1, 5);
    viewer.move_selection(-1, 5);
    assert_eq!(viewer.selected_log(), Some(1));
    assert_eq!(viewer.start_index(), 1);
}

#[test]
fn list_viewport_stays_while_an_entry_is_expanded() {
    let mut viewer = numbered(30);
    viewer.toggle_expand();
    for _ in 0..10 {
        viewer.move_selection(1, 5);
    }
    assert_eq!(viewer.selected_log(), Some(10));
    assert_eq!(viewer.start_index(), 0);
}

#[test]
fn viewport_without_rows_puts_the_cursor_first() {
    let mut viewer = numbered(4);
    viewer.move_selection(1, 0);
    assert_eq!(viewer.selected_log(), Some(1));
    assert_eq!(viewer.start_index(), 1);
}

#[test]
fn short_list_is_drawn_whole() {
    let mut viewer = numbered(5);
    for _ in 0..6 {
        assert_eq!(viewer.get_visible_range(10), (0, 5));
        viewer.move_selection(1, 10);
    }
    let empty = LogViewer::new("f".to_string(), 0, 0);
    assert_eq!(empty.get_visible_range(10), (0, 0));
}

#[test]
fn window_is_laid_around_the_selection() {
    let mut viewer = numbered(100);
    assert_eq!(viewer.get_visible_range(10), (0, 10));
    for _ in 0..5 {
        viewer.move_selection(1, 10);
    }
    assert_eq!(viewer.get_visible_range(10), (0, 10));
    viewer.move_selection(1, 10);
    assert_eq!(viewer.selected_log(), Some(6));
    assert_eq!(viewer.get_visible_range(10), (1, 11));
    for _ in 0..44 {
        viewer.move_selection(1, 10);
    }
    assert_eq!(viewer.selected_log(), Some(50));
    assert_eq!(viewer.get_visible_range(10), (45, 55));
    assert_eq!(viewer.get_visible_range(11), (45, 56));
    assert_eq!(viewer.get_visible_range(1), (50, 51));
    assert_eq!(viewer.get_visible_range(0), (50, 50));
    assert_eq!(viewer.get_visible_range(usize::MAX), (0, 100));
    for _ in 0..48 {
        viewer.move_selection(1, 10);
    }
    assert_eq!(viewer.selected_log(), Some(98));
    assert_eq!(viewer.get_visible_range(10), (90, 100));
}

#[test]
fn update_scroll_sets_the_scroll_offset_and_leaves_the_list_offset() {
    let mut viewer = numbered(100);
    for _ in 0..50 {
        viewer.move_selection(1, 10);
    }
    assert_eq!(viewer.start_index(), 41);
    assert_eq!(viewer.scroll_offset(), 0);
    viewer.update_scroll(20);
    assert_eq!(viewer.scroll_offset(), 40);
    assert_eq!(viewer.scroll_offset(), viewer.get_visible_range(20).0);
    viewer.update_scroll(10);
    assert_eq!(viewer.scroll_offset(), 45);
    viewer.update_scroll(200);
    assert_eq!(viewer.scroll_offset(), 0);
    viewer.update_scroll(0);
    assert_eq!(viewer.scroll_offset(), 50);
    assert_eq!(viewer.start_index(), 41);
    assert_eq!(viewer.selected_log(), Some(50));
    assert_eq!(viewer.scroll_position(), 0);
    assert!(!viewer.expanded());
}

#[test]
fn update_scroll_near_the_end_stops_at_the_last_window() {
    let mut viewer = numbered(100);
    for _ in 0..98 {
        viewer.move_selection(1, 10);
    }
    viewer.update_scroll(10);
    assert_eq!(viewer.scroll_offset(), 90);
    assert_eq!(viewer.start_index(), 89);
}

#[test]
fn update_scroll_without_selection_changes_nothing() {
    let mut viewer = numbered(100);
    for _ in 0..50 {
        viewer.move_selection(1, 10);
    }
    viewer.update_scroll(10);
    viewer.set_filter("no such line".to_string());
    assert_eq!(viewer.selected_log(), None);
    viewer.update_scroll(4);
    assert_eq!(viewer.scroll_offset(), 45);
    assert_eq!(viewer.start_index(), 41);
    let mut empty = LogViewer::new("f".to_string(), 0, 0);
    empty.update_scroll(10);
    assert_eq!(empty.scroll_offset(), 0);
    assert_eq!(empty.start_index(), 0);
}

#[test]
fn move_follows_from_the_list_offset_after_update_scroll() {
    let mut viewer = numbered(20);
    for _ in 0..10 {
        viewer.move_selection(1, 10);
    }
    assert_eq!(viewer.selected_log(), Some(10));
    assert_eq!(viewer.start_index(), 1);
    viewer.update_scroll(10);
    assert_eq!(viewer.scroll_offset(), 5);
    assert_eq!(viewer.start_index(), 1);
    viewer.move_selection(1, 10);
    assert_eq!(viewer.selected_log(), Some(11));
    assert_eq!(viewer.start_index(), 2);
    assert_eq!(viewer.scroll_offset(), 5);
}

#[test]
fn toggle_sets_the_scroll_offset_back() {
    let mut viewer = numbered(100);
    for _ in 0..50 {
        viewer.move_selection(1, 10);
    }
    viewer.update_scroll(10);
    assert_eq!(viewer.scroll_offset(), 45);
    viewer.toggle_expand();
    assert_eq!(viewer.scroll_offset(), 0);
    assert_eq!(viewer.start_index(), 41);
    assert_eq!(viewer.selected_log(), Some(50));
    viewer.update_scroll(10);
    viewer.toggle_expand();
    assert_eq!(viewer.scroll_offset(), 0);
}

#[test]
fn toggling_twice_restores_the_mode_and_resets_the_content_offset() {
    let mut viewer = viewer_with(&["a\nb\nc\nd", "x"]);
    viewer.move_selection(1, 1);
    viewer.move_selection(-1, 1);
    let start = viewer.start_index();
    viewer.toggle_expand();
    assert!(viewer.expanded());
    assert_eq!(viewer.scroll_position(), 0);
    viewer.scroll_down();
    viewer.scroll_down();
    assert_eq!(viewer.scroll_position(), 2);
    viewer.toggle_expand();
    assert!(!viewer.expanded());
    assert_eq!(viewer.scroll_position(), 0);
    assert_eq!(viewer.selected_log(), Some(0));
    assert_eq!(viewer.start_index(), start);
}

#[test]
fn content_scroll_stays_within_the_entry() {
    let mut viewer = viewer_with(&["{\"a\":1,\"b\":2}"]);
    viewer.toggle_expand();
    viewer.scroll_up();
    assert_eq!(viewer.scroll_position(), 0);
    for expected in [1, 2, 3, 3, 3] {
        viewer.scroll_down();
        assert_eq!(viewer.scroll_position(), expected);
    }
    viewer.scroll_up();
    assert_eq!(viewer.scroll_position(), 2);
    viewer.page_down();
    assert_eq!(viewer.scroll_position(), 3);
    viewer.page_up();
    assert_eq!(viewer.scroll_position(), 0);
}

#[test]
fn page_scroll_moves_ten_lines() {
    let long: String = (0..35).map(|i| format!("l{}\n", i)).collect();
    let mut viewer = viewer_with(&[long.as_str()]);
    viewer.toggle_expand();
    viewer.page_down();
    assert_eq!(viewer.scroll_position(), 10);
    viewer.page_down();
    viewer.page_down();
    assert_eq!(viewer.scroll_position(), 30);
    viewer.page_down();
    assert_eq!(viewer.scroll_position(), 34);
    viewer.page_up();
    assert_eq!(viewer.scroll_position(), 24);
    viewer.scroll_up();
    assert_eq!(viewer.scroll_position(), 23);
    viewer.page_up();
    viewer.page_up();
    assert_eq!(viewer.scroll_position(), 3);
    viewer.page_up();
    assert_eq!(viewer.scroll_position(), 0);
}

#[test]
fn content_scroll_does_nothing_in_the_collapsed_list() {
    let mut viewer = viewer_with(&["a\nb\nc"]);
    viewer.scroll_down();
    viewer.page_down();
    assert_eq!(viewer.scroll_position(), 0);
    viewer.scroll_up();
    viewer.page_up();
    assert_eq!(viewer.scroll_position(), 0);
}

#[test]
fn entry_without_lines_cannot_be_scrolled() {
    let mut viewer = viewer_with(&[""]);
    viewer.toggle_expand();
    assert_eq!(viewer.get_selected_log().unwrap().line_count(), 0);
    viewer.scroll_down();
    assert_eq!(viewer.scroll_position(), 0);
    viewer.page_down();
    assert_eq!(viewer.scroll_position(), 0);
    viewer.page_up();
    assert_eq!(viewer.scroll_position(), 0);
}

#[test]
fn scrolling_without_selection_does_nothing() {
    let mut viewer = LogViewer::new("f".to_string(), 0, 0);
    viewer.toggle_expand();
    viewer.scroll_down();
    viewer.page_down();
    assert_eq!(viewer.scroll_position(), 0);
}

#[test]
fn filtered_log_outside_the_view_is_nothing() {
    let viewer = viewer_with(&["a", "b"]);
    assert!(viewer.filtered_log(1).is_some());
    assert!(viewer.filtered_log(2).is_none());
}
