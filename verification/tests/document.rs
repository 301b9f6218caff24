use wind::document::{Document, Row};
use wind::position::Position;

fn doc(lines: &[&str]) -> Document {
    Document::from_lines(None, lines.iter().map(|s| s.to_string()).collect())
}

#[test]
fn row_counts_grapheme_clusters_not_chars() {
    // three user-perceived characters, each built from several code points
    let row = Row::new("a\u{310}e\u{301}o\u{308}\u{332}".to_string());
    assert_eq!(row.len(), 3);
    assert!(!row.is_empty());
}

#[test]
fn row_render_slices_by_cluster() {
    let row = Row::new("a\u{310}e\u{301}o\u{308}\u{332}".to_string());
    assert_eq!(row.render(1, 2), "e\u{301}");
    assert_eq!(row.render(0, 3), "a\u{310}e\u{301}o\u{308}\u{332}");
}

#[test]
fn row_render_clamps_range() {
    let row = Row::new("abc".to_string());
    assert_eq!(row.render(1, 99), "bc");
    assert_eq!(row.render(5, 2), "");
    assert_eq!(row.render(2, 2), "");
}

#[test]
fn row_split_keeps_prefix_returns_suffix() {
    let mut row = Row::new("hello".to_string());
    let tail = row.split(2);
    assert_eq!(row.content, "he");
    assert_eq!(row.len(), 2);
    assert_eq!(tail.content, "llo");
    assert_eq!(tail.len(), 3);
}

#[test]
fn row_split_clamps_past_end() {
    let mut row = Row::new("ab".to_string());
    let tail = row.split(10);
    assert_eq!(row.content, "ab");
    assert_eq!(tail.content, "");
    assert!(tail.is_empty());
}

#[test]
fn row_update_len_recomputes() {
    let mut row = Row::new("abc".to_string());
    row.update_len();
    assert_eq!(row.len(), 3);
}

#[test]
fn empty_row_is_empty() {
    let row = Row::empty();
    assert!(row.is_empty());
    assert_eq!(row.content, "");
}

#[test]
fn open_without_lines_gives_one_empty_row() {
    let d = doc(&[]);
    assert_eq!(d.rows.len(), 1);
    assert_eq!(d.row_len(0), 0);
    assert!(!d.modified);
    assert!(d.path.is_none());
}

#[test]
fn open_with_lines_gives_one_row_per_line() {
    let d = doc(&["abc", "de"]);
    assert_eq!(d.rows.len(), 2);
    assert_eq!(d.rows[0].content, "abc");
    assert_eq!(d.rows[1].content, "de");
    assert_eq!(d.row_len(0), 3);
    assert_eq!(d.row_len(1), 2);
    assert!(!d.modified);
}

#[test]
fn row_len_out_of_bounds_is_zero() {
    let d = doc(&["abc"]);
    assert_eq!(d.row_len(1), 0);
    assert_eq!(d.row_len(99), 0);
}

#[test]
fn insert_cluster_grows_row_by_one() {
    let mut d = doc(&["hello"]);
    d.insert(Position::at(0, 5), '!');
    assert_eq!(d.rows[0].content, "hello!");
    assert_eq!(d.row_len(0), 6);
    assert!(d.modified);
}

#[test]
fn insert_cluster_in_middle() {
    let mut d = doc(&["ac"]);
    d.insert(Position::at(0, 1), 'b');
    assert_eq!(d.rows[0].content, "abc");
    assert_eq!(d.row_len(0), 3);
}

#[test]
fn insert_combining_mark_is_its_own_cluster() {
    // editing is cluster-based: an inserted mark counts as one new cluster
    let mut d = doc(&["e"]);
    d.insert(Position::at(0, 1), '\u{301}');
    assert_eq!(d.row_len(0), 2);
}

#[test]
fn insert_line_break_splits_row() {
    let mut d = doc(&["abcd"]);
    d.insert(Position::at(0, 2), '\n');
    assert_eq!(d.rows.len(), 2);
    assert_eq!(d.rows[0].content, "ab");
    assert_eq!(d.rows[1].content, "cd");
    assert!(d.modified);
}

#[test]
fn insert_new_line_at_row_end() {
    let mut d = doc(&["abc", "x"]);
    d.insert_new_line(Position::at(0, 3));
    assert_eq!(d.rows.len(), 3);
    assert_eq!(d.rows[0].content, "abc");
    assert_eq!(d.rows[1].content, "");
    assert_eq!(d.rows[2].content, "x");
}

#[test]
fn delete_at_row_end_merges_next_row() {
    let mut d = doc(&["abc", "de"]);
    d.delete(Position::at(0, 3));
    assert_eq!(d.rows.len(), 1);
    assert_eq!(d.rows[0].content, "abcde");
    assert_eq!(d.row_len(0), 5);
    assert!(d.modified);
}

#[test]
fn delete_inside_row_removes_one_cluster() {
    let mut d = doc(&["abc"]);
    d.delete(Position::at(0, 1));
    assert_eq!(d.rows[0].content, "ac");
    assert_eq!(d.row_len(0), 2);
    assert!(d.modified);
}

#[test]
fn delete_at_end_of_last_row_changes_nothing_but_modified() {
    let mut d = doc(&["abc"]);
    d.delete(Position::at(0, 3));
    assert_eq!(d.rows.len(), 1);
    assert_eq!(d.rows[0].content, "abc");
    assert!(d.modified);
}

#[test]
fn delete_on_empty_single_row_is_a_no_op() {
    let mut d = doc(&[]);
    d.delete(Position::at(0, 0));
    assert_eq!(d.rows.len(), 1);
    assert_eq!(d.row_len(0), 0);
}

#[test]
fn save_text_terminates_every_row() {
    let d = doc(&["ab", "c"]);
    assert_eq!(d.save_text(), "ab\nc\n");
}

#[test]
fn save_text_of_fresh_document_is_one_terminator() {
    let d = doc(&[]);
    assert_eq!(d.save_text(), "\n");
}
