use sage::buffer::EditorRows;
use sage::cursor::Mode;
use sage::editor::{Editor, Key};
use sage::grid::{Grid, Point};
use sage::out::{MessageLevel, Output};

fn chars(s: &str) -> Vec<char> {
    s.chars().collect()
}

fn rows(content: &str) -> EditorRows {
    EditorRows::from_content(&chars(content))
}

#[test]
fn frame_shows_lines_and_markers() {
    let r = rows("hi\nthere");
    let mut o = Output::new((10, 4));
    let f = o.render_screen(&r, &Mode::Normal, 0);
    assert_eq!(f.rows.len(), 4);
    assert_eq!(f.rows[0], chars("hi"));
    assert_eq!(f.rows[1], chars("there"));
    assert_eq!(f.rows[2], chars("~"));
    assert_eq!(f.rows[3], chars("~"));
    assert!(!f.in_command);
    assert_eq!((f.cursor_x, f.cursor_y), (0, 0));
}

#[test]
fn frame_truncates_lines_to_screen_width() {
    let r = rows("abcdefghij");
    let mut o = Output::new((4, 2));
    let f = o.render_screen(&r, &Mode::Normal, 0);
    assert_eq!(f.rows[0], chars("abcd"));
}

#[test]
fn frame_scrolls_horizontally_with_cursor() {
    let r = rows("abcdefghij");
    let mut o = Output::new((4, 2));
    for _ in 0..9 {
        o.move_cursor(sage::cursor::Direction::Right, &r, &Mode::Normal);
    }
    let f = o.render_screen(&r, &Mode::Normal, 0);
    assert_eq!(f.rows[0], chars("ghij"));
    assert_eq!(f.cursor_x, 3);
}

#[test]
fn frame_shows_rendered_tabs() {
    let r = rows("\tx");
    let mut o = Output::new((20, 2));
    let f = o.render_screen(&r, &Mode::Normal, 0);
    assert_eq!(f.rows[0], chars("        x"));
}

#[test]
fn empty_buffer_shows_welcome_banner() {
    let r = EditorRows::new();
    let mut o = Output::new((30, 6));
    let f = o.render_screen(&r, &Mode::Normal, 0);
    assert_eq!(f.rows[2], chars("~   -- Sage Text Editor --"));
    assert_eq!(f.rows[1], chars("~"));
}

#[test]
fn banner_is_truncated_on_narrow_screens() {
    let r = EditorRows::new();
    let mut o = Output::new((10, 6));
    let f = o.render_screen(&r, &Mode::Normal, 0);
    assert_eq!(f.rows[2], chars("-- Sage Te"));
}

#[test]
fn touched_buffer_shows_no_banner() {
    let r = rows("x");
    let mut o = Output::new((30, 6));
    let f = o.render_screen(&r, &Mode::Normal, 0);
    assert_eq!(f.rows[2], chars("~"));
}

#[test]
fn status_bar_layout_is_exact() {
    let r = rows("hi");
    let mut o = Output::new((40, 4));
    let f = o.render_screen(&r, &Mode::Normal, 0);
    let left = "\"No name\" 1L, 0B";
    let right = "0:0/0 (1) 1";
    let mut expect = String::new();
    expect.push_str(left);
    for _ in 0..(40 - left.len() - right.len()) {
        expect.push(' ');
    }
    expect.push_str(right);
    assert_eq!(f.bar, chars(&expect));
}

#[test]
fn status_bar_shows_base_name_and_dirty_marker() {
    let mut ed = Editor::new(rows("hi"), (60, 4));
    ed.e_rows.set_filename("/tmp/dir/note.txt");
    ed.press(Key::Char('i'), false);
    ed.press(Key::Char('z'), false);
    let f = ed.output.render_screen(&ed.e_rows, &ed.mode, 7);
    let bar: String = f.bar.iter().collect();
    assert!(bar.starts_with("\"note.txt\"* 1L, 7B"));
}

#[test]
fn message_row_prefers_command_message() {
    let r = rows("hi");
    let mut o = Output::new((40, 4));
    o.set_stt_msg("status", MessageLevel::Normal);
    o.set_cmd_msg("boom", MessageLevel::Danger);
    let f = o.render_screen(&r, &Mode::Normal, 0);
    assert_eq!(f.msg, chars("boom"));
    assert!(f.msg_danger);
    o.clear_cmd_msg();
    let f2 = o.render_screen(&r, &Mode::Normal, 0);
    assert_eq!(f2.msg, chars("status"));
    assert!(!f2.msg_danger);
}

#[test]
fn command_mode_frame_shows_prompt_and_command() {
    let mut ed = Editor::new(rows("hi"), (40, 4));
    ed.press(Key::Char(':'), false);
    ed.press(Key::Char('w'), false);
    ed.press(Key::Char('q'), false);
    let f = ed.output.render_screen(&ed.e_rows, &ed.mode, 0);
    assert!(f.in_command);
    assert_eq!(f.msg, chars(":wq"));
    assert_eq!(f.cmd_cursor, 3);
}

#[test]
fn grid_new_marks_row_starts() {
    let g = Grid::new(4, 3);
    assert_eq!(g.chars, chars("    ~   ~   "));
    assert_eq!(*g.get(&Point { x: 0, y: 1 }), '~');
    assert_eq!(*g.get(&Point { x: 1, y: 0 }), ' ');
}

#[test]
fn grid_set_writes_free_cell_directly() {
    let mut g = Grid::new(4, 2);
    g.set(&Point { x: 1, y: 0 }, 'a');
    assert_eq!(g.chars, chars(" a  ~   "));
}

#[test]
fn grid_set_shifts_occupied_cell_right() {
    let mut g = Grid::new(4, 2);
    g.set(&Point { x: 1, y: 0 }, 'a');
    g.set(&Point { x: 1, y: 0 }, 'b');
    assert_eq!(g.chars, chars(" ba ~   "));
}

#[test]
fn grid_set_cascades_overflow_to_next_row() {
    let mut g = Grid::new(2, 2);
    g.set(&Point { x: 0, y: 0 }, 'x');
    g.set(&Point { x: 1, y: 0 }, 'y');
    g.set(&Point { x: 1, y: 0 }, 'z');
    assert_eq!(g.chars, chars("xzy "));
}

#[test]
fn grid_clear_char_pulls_row_left() {
    let mut g = Grid::new(4, 1);
    g.set(&Point { x: 0, y: 0 }, 'a');
    g.set(&Point { x: 1, y: 0 }, 'b');
    g.set(&Point { x: 2, y: 0 }, 'c');
    g.clear_char(&Point { x: 0, y: 0 });
    assert_eq!(g.chars, chars("bc  "));
}

#[test]
fn grid_clear_row_restores_marker() {
    let mut g = Grid::new(3, 2);
    g.set(&Point { x: 1, y: 1 }, 'q');
    g.clear_row(1);
    assert_eq!(g.chars, chars("   ~  "));
}

#[test]
fn grid_point_index_is_row_major() {
    let g = Grid::new(5, 3);
    assert_eq!(g.point_index(&Point { x: 2, y: 1 }), 7);
}

#[test]
fn message_row_is_truncated_to_screen_width() {
    let r = rows("hi");
    let mut o = Output::new((3, 2));
    o.set_cmd_msg("boom", MessageLevel::Danger);
    let f = o.render_screen(&r, &Mode::Normal, 0);
    assert_eq!(f.msg, chars("boo"));
}

#[test]
fn status_bar_is_cut_when_left_block_overflows() {
    let r = rows("hi");
    let mut o = Output::new((8, 2));
    let f = o.render_screen(&r, &Mode::Normal, 0);
    assert_eq!(f.bar, chars("\"No name"));
}

#[test]
fn status_bar_drops_right_block_when_it_does_not_fit() {
    let r = rows("hi");
    let mut o = Output::new((20, 2));
    let f = o.render_screen(&r, &Mode::Normal, 0);
    assert_eq!(f.bar.len(), 20);
    assert_eq!(f.bar, chars("\"No name\" 1L, 0B    "));
}

#[test]
fn line_scrolled_fully_out_renders_empty() {
    let r = rows("ab\nabcdefgh");
    let mut o = Output::new((3, 2));
    o.move_cursor(sage::cursor::Direction::Down, &r, &Mode::Normal);
    for _ in 0..7 {
        o.move_cursor(sage::cursor::Direction::Right, &r, &Mode::Normal);
    }
    let f = o.render_screen(&r, &Mode::Normal, 0);
    assert_eq!(f.rows[0], chars(""));
    assert_eq!(f.rows[1], chars("fgh"));
}
