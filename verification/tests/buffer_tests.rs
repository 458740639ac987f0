use sage::buffer::{ERow, EditorRows};

fn chars(s: &str) -> Vec<char> {
    s.chars().collect()
}

#[test]
fn row_renders_plain_text_unchanged() {
    let row = ERow::new(chars("hello"));
    assert_eq!(row.raw, chars("hello"));
    assert_eq!(row.render, chars("hello"));
}

#[test]
fn row_expands_tab_to_next_stop() {
    let row = ERow::new(chars("\tx"));
    assert_eq!(row.render, chars("        x"));
    let row2 = ERow::new(chars("ab\tx"));
    assert_eq!(row2.render, chars("ab      x"));
}

#[test]
fn row_tab_at_stop_boundary_expands_full_width() {
    let row = ERow::new(chars("12345678\tx"));
    assert_eq!(row.render, chars("12345678        x"));
}

#[test]
fn row_insert_rerenders() {
    let mut row = ERow::new(chars("ac"));
    row.insert(1, 'b');
    assert_eq!(row.raw, chars("abc"));
    assert_eq!(row.render, chars("abc"));
    row.insert(0, '\t');
    assert_eq!(row.render, chars("        abc"));
}

#[test]
fn row_delete_char_and_clear() {
    let mut row = ERow::new(chars("abc"));
    row.delete_char(1);
    assert_eq!(row.raw, chars("ac"));
    row.clear();
    assert_eq!(row.raw, chars(""));
    assert_eq!(row.render, chars(""));
}

#[test]
fn row_push_str_appends() {
    let mut row = ERow::new(chars("ab"));
    row.push_str("cd");
    assert_eq!(row.raw, chars("abcd"));
    assert_eq!(row.render, chars("abcd"));
}

#[test]
fn new_buffer_has_one_empty_line() {
    let rows = EditorRows::new();
    assert_eq!(rows.num_rows(), 1);
    assert_eq!(*rows.get_raw(0), chars(""));
    assert!(rows.filename.is_none());
}

#[test]
fn from_content_splits_on_newlines() {
    let rows = EditorRows::from_content(&chars("ab\ncd\nef"));
    assert_eq!(rows.num_rows(), 3);
    assert_eq!(*rows.get_raw(0), chars("ab"));
    assert_eq!(*rows.get_raw(1), chars("cd"));
    assert_eq!(*rows.get_raw(2), chars("ef"));
}

#[test]
fn from_content_empty_gives_one_empty_line() {
    let rows = EditorRows::from_content(&chars(""));
    assert_eq!(rows.num_rows(), 1);
    assert_eq!(*rows.get_raw(0), chars(""));
}

#[test]
fn from_content_strips_carriage_returns_before_newlines() {
    let rows = EditorRows::from_content(&chars("ab\r\ncd"));
    assert_eq!(rows.num_rows(), 2);
    assert_eq!(*rows.get_raw(0), chars("ab"));
    assert_eq!(*rows.get_raw(1), chars("cd"));
}

#[test]
fn from_content_trailing_newline_gives_trailing_empty_line() {
    let rows = EditorRows::from_content(&chars("ab\n"));
    assert_eq!(rows.num_rows(), 2);
    assert_eq!(*rows.get_raw(0), chars("ab"));
    assert_eq!(*rows.get_raw(1), chars(""));
}

#[test]
fn serialize_joins_with_single_newlines() {
    let mut rows = EditorRows::new();
    rows.clear_erow(0);
    rows.insert_erow(0, chars("ab"));
    rows.insert_erow(1, chars("cd"));
    rows.delete_erow(2);
    assert_eq!(rows.num_rows(), 2);
    assert_eq!(rows.serialize(), chars("ab\ncd"));
}

#[test]
fn serialize_byte_count_matches_content() {
    let rows = EditorRows::from_content(&chars("ab\ncd"));
    let out = rows.serialize();
    assert_eq!(out.len(), 5);
    assert_eq!(out, chars("ab\ncd"));
}

#[test]
fn save_then_load_round_trips() {
    let rows = EditorRows::from_content(&chars("one\ntwo words\n\nlast"));
    let saved = rows.serialize();
    let reloaded = EditorRows::from_content(&saved);
    assert_eq!(reloaded.num_rows(), rows.num_rows());
    for i in 0..rows.num_rows() {
        assert_eq!(rows.get_raw(i), reloaded.get_raw(i));
    }
}

#[test]
fn insert_erow_shifts_lines_down() {
    let mut rows = EditorRows::from_content(&chars("a\nc"));
    rows.insert_erow(1, chars("b"));
    assert_eq!(rows.num_rows(), 3);
    assert_eq!(*rows.get_raw(1), chars("b"));
    assert_eq!(*rows.get_raw(2), chars("c"));
}

#[test]
fn delete_erow_out_of_range_is_noop() {
    let mut rows = EditorRows::from_content(&chars("a\nb"));
    rows.delete_erow(5);
    assert_eq!(rows.num_rows(), 2);
    rows.delete_erow(0);
    assert_eq!(rows.num_rows(), 1);
    assert_eq!(*rows.get_raw(0), chars("b"));
}

#[test]
fn join_adj_erows_merges_and_removes() {
    let mut rows = EditorRows::from_content(&chars("abc\ndef\nghi"));
    rows.join_adj_erows(1);
    assert_eq!(rows.num_rows(), 2);
    assert_eq!(*rows.get_raw(0), chars("abcdef"));
    assert_eq!(*rows.get_raw(1), chars("ghi"));
}

#[test]
fn get_render_tracks_mutation() {
    let mut rows = EditorRows::from_content(&chars("x"));
    let row = rows.get_erow_mut(0);
    row.insert(0, '\t');
    assert_eq!(*rows.get_render(0), chars("        x"));
}

#[test]
fn set_filename_stores_name() {
    let mut rows = EditorRows::new();
    rows.set_filename("notes.txt");
    assert_eq!(rows.filename.as_ref().unwrap(), &chars("notes.txt"));
}

#[test]
fn get_erows_exposes_all_lines() {
    let rows = EditorRows::from_content(&chars("a\nb"));
    let all = rows.get_erows();
    assert_eq!(all.len(), 2);
    assert_eq!(all[0].raw, chars("a"));
    assert_eq!(all[1].raw, chars("b"));
}
