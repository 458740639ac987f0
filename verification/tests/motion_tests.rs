use sage::buffer::EditorRows;
use sage::cursor::{Direction, Mode};
use sage::out::Output;

fn chars(s: &str) -> Vec<char> {
    s.chars().collect()
}

fn rows(content: &str) -> EditorRows {
    EditorRows::from_content(&chars(content))
}

fn output() -> Output {
    Output::new((80, 24))
}

#[test]
fn vertical_motion_saturates_at_edges() {
    let r = rows("a\nb\nc");
    let mut o = output();
    o.move_cursor(Direction::Up, &r, &Mode::Normal);
    assert_eq!(o.c_ctrl.cy, 0);
    o.move_cursor(Direction::Down, &r, &Mode::Normal);
    assert_eq!(o.c_ctrl.cy, 1);
    o.move_cursor(Direction::Down, &r, &Mode::Normal);
    o.move_cursor(Direction::Down, &r, &Mode::Normal);
    o.move_cursor(Direction::Down, &r, &Mode::Normal);
    assert_eq!(o.c_ctrl.cy, 2);
}

#[test]
fn horizontal_motion_respects_normal_bound() {
    let r = rows("abc");
    let mut o = output();
    o.move_cursor(Direction::Left, &r, &Mode::Normal);
    assert_eq!(o.c_ctrl.cx, 0);
    for _ in 0..5 {
        o.move_cursor(Direction::Right, &r, &Mode::Normal);
    }
    assert_eq!(o.c_ctrl.cx, 2);
}

#[test]
fn horizontal_motion_insert_allows_append_position() {
    let r = rows("abc");
    let mut o = output();
    for _ in 0..5 {
        o.move_cursor(Direction::Right, &r, &Mode::Insert);
    }
    assert_eq!(o.c_ctrl.cx, 3);
}

#[test]
fn right_motion_skips_over_tab() {
    let r = rows("a\tb");
    let mut o = output();
    o.move_cursor(Direction::Right, &r, &Mode::Normal);
    assert_eq!(o.c_ctrl.cx, 2);
}

#[test]
fn vertical_motion_reclamps_column_to_shorter_line() {
    let r = rows("abcdef\nab");
    let mut o = output();
    for _ in 0..5 {
        o.move_cursor(Direction::Right, &r, &Mode::Normal);
    }
    assert_eq!(o.c_ctrl.cx, 5);
    o.move_cursor(Direction::Down, &r, &Mode::Normal);
    assert_eq!(o.c_ctrl.cy, 1);
    assert_eq!(o.c_ctrl.cx, 1);
}

#[test]
fn goto_start_line_finds_first_non_blank() {
    let r = rows("   abc");
    let mut o = output();
    o.goto_start_line(&r);
    assert_eq!(o.c_ctrl.cx, 3);
}

#[test]
fn goto_start_line_blank_line_gives_column_zero() {
    let r = rows("    ");
    let mut o = output();
    o.goto_start_line(&r);
    assert_eq!(o.c_ctrl.cx, 0);
}

#[test]
fn goto_end_line_normal_lands_on_last_char() {
    let r = rows("abc");
    let mut o = output();
    o.goto_end_line(&r, &Mode::Normal);
    assert_eq!(o.c_ctrl.cx, 2);
    o.goto_end_line(&r, &Mode::Insert);
    assert_eq!(o.c_ctrl.cx, 3);
}

#[test]
fn goto_end_line_twice_is_same_as_once() {
    let r = rows("hello world");
    let mut o = output();
    o.goto_end_line(&r, &Mode::Normal);
    let once = o.c_ctrl.cx;
    o.goto_end_line(&r, &Mode::Normal);
    assert_eq!(o.c_ctrl.cx, once);
}

#[test]
fn next_word_lands_on_run_starts() {
    let r = rows("  foo bar");
    let mut o = output();
    o.next_word(&r, false);
    assert_eq!(o.c_ctrl.cx, 2);
    o.next_word(&r, false);
    assert_eq!(o.c_ctrl.cx, 6);
}

#[test]
fn next_word_at_last_char_of_last_line_is_noop() {
    let r = rows("  foo bar");
    let mut o = output();
    o.goto_end_line(&r, &Mode::Normal);
    let cx = o.c_ctrl.cx;
    o.next_word(&r, false);
    assert_eq!(o.c_ctrl.cx, cx);
    assert_eq!(o.c_ctrl.cy, 0);
}

#[test]
fn next_word_wraps_to_next_line() {
    let r = rows("ab\ncd");
    let mut o = output();
    o.goto_end_line(&r, &Mode::Normal);
    o.next_word(&r, false);
    assert_eq!((o.c_ctrl.cx, o.c_ctrl.cy), (0, 1));
}

#[test]
fn next_word_to_end_lands_on_run_end() {
    let r = rows("foo bar");
    let mut o = output();
    o.next_word(&r, true);
    assert_eq!(o.c_ctrl.cx, 2);
}

#[test]
fn prev_word_walks_back_over_run_and_space() {
    let r = rows("foo bar");
    let mut o = output();
    o.goto_end_line(&r, &Mode::Normal);
    o.prev_word(&r, false);
    assert_eq!(o.c_ctrl.cx, 2);
}

#[test]
fn prev_word_to_start_reaches_run_start() {
    let r = rows("x foo bar");
    let mut o = output();
    o.goto_end_line(&r, &Mode::Normal);
    o.prev_word(&r, true);
    assert_eq!(o.c_ctrl.cx, 2);
}

#[test]
fn prev_word_wraps_to_previous_line_end() {
    let r = rows("ab\ncd");
    let mut o = output();
    o.move_cursor(Direction::Down, &r, &Mode::Normal);
    o.prev_word(&r, false);
    assert_eq!((o.c_ctrl.cx, o.c_ctrl.cy), (1, 0));
}

#[test]
fn prev_word_on_first_line_column_zero_is_noop() {
    let r = rows("ab cd");
    let mut o = output();
    o.prev_word(&r, false);
    assert_eq!((o.c_ctrl.cx, o.c_ctrl.cy), (0, 0));
}

#[test]
fn scroll_computes_render_column_with_tabs() {
    let r = rows("\tx");
    let mut o = Output::new((80, 24));
    o.move_cursor(Direction::Right, &r, &Mode::Normal);
    assert_eq!(o.c_ctrl.cx, 1);
    o.c_ctrl.scroll(&r);
    assert_eq!(o.c_ctrl.rx, 8);
}

#[test]
fn scroll_snaps_cursor_off_leading_tab() {
    let r = rows("\tx");
    let mut o = Output::new((80, 24));
    o.c_ctrl.scroll(&r);
    assert_eq!(o.c_ctrl.cx, 1);
    assert_eq!(o.c_ctrl.rx, 8);
}

#[test]
fn scroll_keeps_cursor_inside_window() {
    let r = rows("a\nb\nc\nd\ne\nf");
    let mut o = Output::new((10, 2));
    for _ in 0..5 {
        o.move_cursor(Direction::Down, &r, &Mode::Normal);
    }
    o.c_ctrl.scroll(&r);
    assert_eq!(o.c_ctrl.cy, 5);
    assert_eq!(o.c_ctrl.y_offset, 4);
    for _ in 0..5 {
        o.move_cursor(Direction::Up, &r, &Mode::Normal);
    }
    o.c_ctrl.scroll(&r);
    assert_eq!(o.c_ctrl.y_offset, 0);
}

#[test]
fn scroll_horizontal_offset_follows_render_column() {
    let r = rows("abcdefghij");
    let mut o = Output::new((4, 2));
    for _ in 0..9 {
        o.move_cursor(Direction::Right, &r, &Mode::Normal);
    }
    o.c_ctrl.scroll(&r);
    assert_eq!(o.c_ctrl.rx, 9);
    assert_eq!(o.c_ctrl.x_offset, 6);
}

#[test]
fn command_cursor_moves_within_command() {
    let r = rows("irrelevant line");
    let mut o = output();
    o.push_cmd('w');
    o.push_cmd('q');
    assert_eq!(o.c_ctrl.cmdx, 3);
    o.move_cursor(Direction::Right, &r, &Mode::Command);
    assert_eq!(o.c_ctrl.cmdx, 3);
    o.move_cursor(Direction::Left, &r, &Mode::Command);
    assert_eq!(o.c_ctrl.cmdx, 2);
    o.move_cursor(Direction::Left, &r, &Mode::Command);
    o.move_cursor(Direction::Left, &r, &Mode::Command);
    assert_eq!(o.c_ctrl.cmdx, 1);
}
