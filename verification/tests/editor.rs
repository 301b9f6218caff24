use wind::boundaries::Boundaries;
use wind::document::Document;
use wind::editor::{usize_to_string, Editor, EditorMode, EditorStatus, KeyInput};

fn editor(lines: &[&str]) -> Editor {
    Editor::new(Document::from_lines(None, lines.iter().map(|s| s.to_string()).collect()))
}

fn wide() -> Boundaries {
    Boundaries::new(80, 24)
}

#[test]
fn new_editor_starts_at_origin_in_normal_mode() {
    let e = editor(&["abc"]);
    assert_eq!(e.position.row, 0);
    assert_eq!(e.position.column, 0);
    assert_eq!(e.scroll_offset.row, 0);
    assert_eq!(e.scroll_offset.column, 0);
    assert!(e.mode == EditorMode::Normal);
    assert!(!e.status.is_exit());
}

#[test]
fn move_right_at_row_end_wraps_to_next_row_start() {
    let mut e = editor(&["abc", "de"]);
    let b = Boundaries::new(5, 24);
    e.position.column = 3;
    e.position.history.column = 3;
    e.move_right(b, 1);
    assert_eq!(e.position.row, 1);
    assert_eq!(e.position.column, 0);
    assert_eq!(e.scroll_offset.column, 0);
}

#[test]
fn move_right_clamps_to_row_length() {
    let mut e = editor(&["abc"]);
    e.move_right(wide(), 99);
    assert_eq!(e.position.row, 0);
    assert_eq!(e.position.column, 3);
}

#[test]
fn move_right_on_last_row_end_stays_put() {
    let mut e = editor(&["ab"]);
    e.move_right(wide(), 2);
    e.move_right(wide(), 1);
    assert_eq!(e.position.row, 0);
    assert_eq!(e.position.column, 2);
}

#[test]
fn move_left_at_column_zero_goes_to_previous_row_end() {
    let mut e = editor(&["abc", "de"]);
    e.move_down(wide(), 1);
    assert_eq!(e.position.row, 1);
    e.move_left(wide(), 1);
    assert_eq!(e.position.row, 0);
    assert_eq!(e.position.column, 3);
}

#[test]
fn move_up_from_first_row_does_nothing() {
    let mut e = editor(&["abc"]);
    e.move_up(wide(), 1);
    assert_eq!(e.position.row, 0);
    assert_eq!(e.position.column, 0);
}

#[test]
fn move_down_stops_at_last_row() {
    let mut e = editor(&["a", "b"]);
    e.move_down(wide(), 1);
    e.move_down(wide(), 1);
    assert_eq!(e.position.row, 1);
}

#[test]
fn vertical_move_clamps_to_sticky_column() {
    let mut e = editor(&["abcdef", "ab", "abcdef"]);
    e.move_right(wide(), 4);
    assert_eq!(e.position.column, 4);
    e.move_down(wide(), 1);
    assert_eq!(e.position.column, 2);
    e.move_down(wide(), 1);
    assert_eq!(e.position.column, 4);
}

#[test]
fn moving_down_past_viewport_bottom_scrolls() {
    let mut e = editor(&["a", "b", "c", "d"]);
    let b = Boundaries::new(80, 2);
    e.move_down(b, 1);
    assert_eq!(e.scroll_offset.row, 0);
    e.move_down(b, 1);
    assert_eq!(e.position.row, 2);
    assert_eq!(e.scroll_offset.row, 1);
    e.move_down(b, 1);
    assert_eq!(e.position.row, 3);
    assert_eq!(e.scroll_offset.row, 2);
    assert!(e.scroll_offset.row <= e.position.row);
    assert!((e.position.row as u64) < e.scroll_offset.row as u64 + 2);
}

#[test]
fn moving_right_past_viewport_edge_scrolls() {
    let mut e = editor(&["abcdef"]);
    let b = Boundaries::new(3, 24);
    e.move_right(b, 1);
    e.move_right(b, 1);
    assert_eq!(e.scroll_offset.column, 0);
    e.move_right(b, 1);
    assert_eq!(e.position.column, 3);
    assert_eq!(e.scroll_offset.column, 1);
}

#[test]
fn moving_back_up_scrolls_viewport_up() {
    let mut e = editor(&["a", "b", "c", "d"]);
    let b = Boundaries::new(80, 2);
    e.move_down(b, 1);
    e.move_down(b, 1);
    e.move_down(b, 1);
    assert_eq!(e.scroll_offset.row, 2);
    e.move_up(b, 1);
    assert_eq!(e.position.row, 2);
    e.move_up(b, 1);
    assert_eq!(e.position.row, 1);
    assert_eq!(e.scroll_offset.row, 1);
}

#[test]
fn key_i_enters_insert_mode_and_escape_leaves_it() {
    let mut e = editor(&["abc"]);
    e.handle_key(wide(), KeyInput::Char('i', false));
    assert!(e.mode == EditorMode::Insert);
    e.handle_key(wide(), KeyInput::Escape);
    assert!(e.mode == EditorMode::Normal);
}

#[test]
fn key_o_opens_row_below_and_moves_onto_it() {
    let mut e = editor(&["abc"]);
    e.handle_key(wide(), KeyInput::Char('o', false));
    assert!(e.mode == EditorMode::Insert);
    assert_eq!(e.document.rows.len(), 2);
    assert_eq!(e.document.rows[1].content, "");
    assert_eq!(e.position.row, 1);
    assert_eq!(e.position.column, 0);
}

#[test]
fn key_capital_o_opens_row_above_at_column_zero() {
    let mut e = editor(&["abc"]);
    e.move_right(wide(), 2);
    e.handle_key(wide(), KeyInput::Char('O', false));
    assert!(e.mode == EditorMode::Insert);
    assert_eq!(e.document.rows.len(), 2);
    assert_eq!(e.document.rows[0].content, "");
    assert_eq!(e.document.rows[1].content, "abc");
    assert_eq!(e.position.row, 0);
    assert_eq!(e.position.column, 0);
}

#[test]
fn ctrl_q_requests_exit() {
    let mut e = editor(&["abc"]);
    e.handle_key(wide(), KeyInput::Char('q', true));
    assert!(e.status.is_exit());
}

#[test]
fn ctrl_q_exits_from_insert_mode_too() {
    let mut e = editor(&["abc"]);
    e.handle_key(wide(), KeyInput::Char('i', false));
    e.handle_key(wide(), KeyInput::Char('q', true));
    assert!(e.status.is_exit());
    assert_eq!(e.document.rows[0].content, "abc");
}

#[test]
fn plain_q_does_not_exit() {
    let mut e = editor(&["abc"]);
    e.handle_key(wide(), KeyInput::Char('q', false));
    assert!(!e.status.is_exit());
}

#[test]
fn ctrl_s_requests_save_only_in_normal_mode() {
    let mut e = editor(&["abc"]);
    assert!(e.handle_key(wide(), KeyInput::Char('s', true)));
    e.handle_key(wide(), KeyInput::Char('i', false));
    assert!(!e.handle_key(wide(), KeyInput::Char('s', true)));
}

#[test]
fn typing_appends_at_cursor_and_advances() {
    let mut e = editor(&["hello"]);
    e.handle_key(wide(), KeyInput::End);
    assert_eq!(e.position.column, 5);
    e.handle_key(wide(), KeyInput::Char('i', false));
    e.handle_key(wide(), KeyInput::Char('!', false));
    assert_eq!(e.document.rows[0].content, "hello!");
    assert_eq!(e.position.row, 0);
    assert_eq!(e.position.column, 6);
    assert!(e.document.modified);
}

#[test]
fn enter_splits_line_and_moves_to_next_row_start() {
    let mut e = editor(&["abcd"]);
    e.handle_key(wide(), KeyInput::Char('i', false));
    e.handle_key(wide(), KeyInput::Right);
    e.handle_key(wide(), KeyInput::Right);
    e.handle_key(wide(), KeyInput::Enter);
    assert_eq!(e.document.rows.len(), 2);
    assert_eq!(e.document.rows[0].content, "ab");
    assert_eq!(e.document.rows[1].content, "cd");
    assert_eq!(e.position.row, 1);
    assert_eq!(e.position.column, 0);
}

#[test]
fn backspace_at_row_start_merges_with_previous_row() {
    let mut e = editor(&["ab", "cd"]);
    e.handle_key(wide(), KeyInput::Down);
    e.handle_key(wide(), KeyInput::Char('i', false));
    e.handle_key(wide(), KeyInput::Backspace);
    assert_eq!(e.document.rows.len(), 1);
    assert_eq!(e.document.rows[0].content, "abcd");
    assert_eq!(e.position.row, 0);
    assert_eq!(e.position.column, 2);
}

#[test]
fn backspace_at_document_start_does_nothing() {
    let mut e = editor(&["ab"]);
    e.handle_key(wide(), KeyInput::Char('i', false));
    e.handle_key(wide(), KeyInput::Backspace);
    assert_eq!(e.document.rows.len(), 1);
    assert_eq!(e.document.rows[0].content, "ab");
}

#[test]
fn delete_key_removes_cluster_under_cursor() {
    let mut e = editor(&["abc"]);
    e.handle_key(wide(), KeyInput::Char('i', false));
    e.handle_key(wide(), KeyInput::Delete);
    assert_eq!(e.document.rows[0].content, "bc");
}

#[test]
fn home_and_end_jump_within_row() {
    let mut e = editor(&["abcdef"]);
    e.handle_key(wide(), KeyInput::End);
    assert_eq!(e.position.column, 6);
    e.handle_key(wide(), KeyInput::Home);
    assert_eq!(e.position.column, 0);
}

#[test]
fn movement_keys_work_in_insert_mode_too() {
    let mut e = editor(&["abc"]);
    e.handle_key(wide(), KeyInput::Char('i', false));
    e.handle_key(wide(), KeyInput::Right);
    assert_eq!(e.position.column, 1);
    assert!(e.mode == EditorMode::Insert);
}

#[test]
fn hjkl_move_in_normal_mode_but_insert_in_insert_mode() {
    let mut e = editor(&["abc", "de"]);
    e.handle_key(wide(), KeyInput::Char('j', false));
    assert_eq!(e.position.row, 1);
    e.handle_key(wide(), KeyInput::Char('k', false));
    assert_eq!(e.position.row, 0);
    e.handle_key(wide(), KeyInput::Char('l', false));
    assert_eq!(e.position.column, 1);
    e.handle_key(wide(), KeyInput::Char('h', false));
    assert_eq!(e.position.column, 0);
    e.handle_key(wide(), KeyInput::Char('i', false));
    e.handle_key(wide(), KeyInput::Char('j', false));
    assert_eq!(e.document.rows[0].content, "jabc");
}

#[test]
fn prepare_save_assigns_placeholder_path() {
    let mut e = editor(&["ab"]);
    let text = e.prepare_save();
    assert_eq!(text, "ab\n");
    assert_eq!(e.document.path.as_deref(), Some("temp"));
}

#[test]
fn prepare_save_keeps_existing_path() {
    let mut e = Editor::new(Document::from_lines(
        Some("notes.txt".to_string()),
        vec!["x".to_string()],
    ));
    let text = e.prepare_save();
    assert_eq!(text, "x\n");
    assert_eq!(e.document.path.as_deref(), Some("notes.txt"));
}

#[test]
fn successful_save_reports_and_clears_modified() {
    let mut e = editor(&["hello"]);
    e.handle_key(wide(), KeyInput::Char('i', false));
    e.handle_key(wide(), KeyInput::Char('!', false));
    assert!(e.document.modified);
    let text = e.prepare_save();
    assert_eq!(text.len(), 7);
    e.save(Ok(text.len()));
    assert!(!e.document.modified);
    match &e.status {
        EditorStatus::Message(m) => assert_eq!(m, "'temp' saved, 1L 7B"),
        _ => panic!("expected a status message"),
    }
    assert_eq!(e.status.text(), "'temp' saved, 1L 7B");
}

#[test]
fn failed_save_reports_error_and_keeps_modified() {
    let mut e = editor(&["x"]);
    e.handle_key(wide(), KeyInput::Char('i', false));
    e.handle_key(wide(), KeyInput::Char('y', false));
    e.prepare_save();
    e.save(Err("disk full".to_string()));
    assert!(e.document.modified);
    match &e.status {
        EditorStatus::Message(m) => assert_eq!(m, "Could not save the document: disk full"),
        _ => panic!("expected a status message"),
    }
}

#[test]
fn visible_rows_apply_both_scroll_offsets() {
    let mut e = editor(&["abcdef", "bcdefg", "c", "d", "e"]);
    let b = Boundaries::new(3, 2);
    // walk right until the viewport scrolls one column
    e.move_right(b, 1);
    e.move_right(b, 1);
    e.move_right(b, 1);
    assert_eq!(e.scroll_offset.column, 1);
    // walk down until the viewport scrolls one row
    e.move_down(b, 1);
    e.move_down(b, 1);
    assert_eq!(e.scroll_offset.row, 1);
    let rows = e.visible_rows(b);
    assert_eq!(rows, vec!["cde".to_string(), "".to_string()]);
}

#[test]
fn visible_rows_stop_at_the_last_row() {
    let e = editor(&["ab"]);
    let rows = e.visible_rows(Boundaries::new(80, 24));
    assert_eq!(rows, vec!["ab".to_string()]);
}

#[test]
fn cursor_screen_position_subtracts_scroll() {
    let mut e = editor(&["abcdef"]);
    let b = Boundaries::new(3, 24);
    e.move_right(b, 1);
    e.move_right(b, 1);
    e.move_right(b, 1);
    assert_eq!(e.position.column, 3);
    assert_eq!(e.scroll_offset.column, 1);
    assert_eq!(e.cursor_screen_position(), (2, 0));
}

#[test]
fn decimal_rendering_is_exact() {
    assert_eq!(usize_to_string(0), "0");
    assert_eq!(usize_to_string(7), "7");
    assert_eq!(usize_to_string(10), "10");
    assert_eq!(usize_to_string(907), "907");
    assert_eq!(usize_to_string(120034), "120034");
}

#[test]
fn mode_labels() {
    assert_eq!(EditorMode::Normal.text(), "normal");
    assert_eq!(EditorMode::Insert.text(), "insert");
}

#[test]
fn idle_and_exit_status_have_empty_text() {
    let mut e = editor(&["x"]);
    assert_eq!(e.status.text(), "");
    e.handle_key(wide(), KeyInput::Char('q', true));
    assert_eq!(e.status.text(), "");
}
