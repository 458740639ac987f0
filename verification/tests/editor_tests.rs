use sage::buffer::EditorRows;
use sage::cursor::Mode;
use sage::editor::{Editor, EditorAction, Key};
use sage::out::MessageLevel;

fn chars(s: &str) -> Vec<char> {
    s.chars().collect()
}

fn editor(content: &str) -> Editor {
    Editor::new(EditorRows::from_content(&chars(content)), (80, 24))
}

fn type_command(ed: &mut Editor, cmd: &str) -> EditorAction {
    let r = ed.press(Key::Char(':'), false);
    assert!(matches!(r, EditorAction::Continue));
    for c in cmd.chars() {
        ed.press(Key::Char(c), false);
    }
    ed.press(Key::Enter, false)
}

#[test]
fn starts_in_normal_mode() {
    let ed = editor("hello");
    assert!(matches!(ed.mode, Mode::Normal));
    assert_eq!(ed.output.dirty, 0);
}

#[test]
fn insert_mode_entry_and_escape() {
    let mut ed = editor("hello");
    ed.press(Key::Char('i'), false);
    assert!(matches!(ed.mode, Mode::Insert));
    let msg = ed.output.stt_msg.as_ref().unwrap();
    assert_eq!(msg.content, chars("-- INSERT --"));
    ed.press(Key::Esc, false);
    assert!(matches!(ed.mode, Mode::Normal));
}

#[test]
fn typing_inserts_at_cursor_and_dirties() {
    let mut ed = editor("ac");
    ed.press(Key::Char('l'), false);
    ed.press(Key::Char('i'), false);
    ed.press(Key::Char('b'), false);
    assert_eq!(*ed.e_rows.get_raw(0), chars("abc"));
    assert_eq!(ed.output.c_ctrl.cx, 2);
    assert_eq!(ed.output.dirty, 1);
}

#[test]
fn tab_key_inserts_literal_tab() {
    let mut ed = editor("x");
    ed.press(Key::Char('i'), false);
    ed.press(Key::Tab, false);
    assert_eq!(*ed.e_rows.get_raw(0), chars("\tx"));
    assert_eq!(*ed.e_rows.get_render(0), chars("        x"));
}

#[test]
fn backspace_joins_lines_at_column_zero() {
    let mut ed = editor("abc\ndef");
    ed.press(Key::Char('j'), false);
    assert_eq!((ed.output.c_ctrl.cx, ed.output.c_ctrl.cy), (0, 1));
    ed.press(Key::Char('i'), false);
    ed.press(Key::Backspace, false);
    assert_eq!(ed.e_rows.num_rows(), 1);
    assert_eq!(*ed.e_rows.get_raw(0), chars("abcdef"));
    assert_eq!((ed.output.c_ctrl.cx, ed.output.c_ctrl.cy), (3, 0));
}

#[test]
fn backspace_mid_line_deletes_left() {
    let mut ed = editor("abc");
    ed.press(Key::Char('l'), false);
    ed.press(Key::Char('i'), false);
    ed.press(Key::Backspace, false);
    assert_eq!(*ed.e_rows.get_raw(0), chars("bc"));
    assert_eq!(ed.output.c_ctrl.cx, 0);
}

#[test]
fn backspace_at_origin_is_noop() {
    let mut ed = editor("abc");
    ed.press(Key::Char('i'), false);
    ed.press(Key::Backspace, false);
    assert_eq!(*ed.e_rows.get_raw(0), chars("abc"));
    assert_eq!(ed.output.dirty, 0);
}

#[test]
fn enter_breaks_line_at_cursor() {
    let mut ed = editor("hello");
    ed.press(Key::Char('l'), false);
    ed.press(Key::Char('l'), false);
    assert_eq!(ed.output.c_ctrl.cx, 2);
    ed.press(Key::Char('i'), false);
    ed.press(Key::Enter, false);
    assert_eq!(ed.e_rows.num_rows(), 2);
    assert_eq!(*ed.e_rows.get_raw(0), chars("he"));
    assert_eq!(*ed.e_rows.get_raw(1), chars("llo"));
    assert_eq!((ed.output.c_ctrl.cx, ed.output.c_ctrl.cy), (0, 1));
}

#[test]
fn append_key_moves_past_cursor() {
    let mut ed = editor("ab");
    ed.press(Key::Char('a'), false);
    assert!(matches!(ed.mode, Mode::Insert));
    assert_eq!(ed.output.c_ctrl.cx, 1);
    ed.press(Key::Char('X'), false);
    assert_eq!(*ed.e_rows.get_raw(0), chars("aXb"));
}

#[test]
fn append_at_end_key_goes_one_past_end() {
    let mut ed = editor("ab");
    ed.press(Key::Char('A'), false);
    assert_eq!(ed.output.c_ctrl.cx, 2);
    ed.press(Key::Char('c'), false);
    assert_eq!(*ed.e_rows.get_raw(0), chars("abc"));
}

#[test]
fn insert_at_start_key_lands_on_first_non_blank() {
    let mut ed = editor("  ab");
    ed.press(Key::Char('$'), false);
    ed.press(Key::Char('I'), false);
    assert_eq!(ed.output.c_ctrl.cx, 2);
}

#[test]
fn open_line_below_and_above() {
    let mut ed = editor("ab");
    ed.press(Key::Char('o'), false);
    assert!(matches!(ed.mode, Mode::Insert));
    assert_eq!(ed.e_rows.num_rows(), 2);
    assert_eq!(*ed.e_rows.get_raw(1), chars(""));
    assert_eq!((ed.output.c_ctrl.cx, ed.output.c_ctrl.cy), (0, 1));
    ed.press(Key::Esc, false);
    ed.press(Key::Char('O'), false);
    assert_eq!(ed.e_rows.num_rows(), 3);
    assert_eq!((ed.output.c_ctrl.cx, ed.output.c_ctrl.cy), (0, 1));
}

#[test]
fn goto_last_and_first_line() {
    let mut ed = editor("a\nb\nc");
    ed.press(Key::Char('G'), false);
    assert_eq!(ed.output.c_ctrl.cy, 2);
    ed.press(Key::Char('g'), false);
    assert_eq!(ed.output.c_ctrl.cy, 2);
    ed.press(Key::Char('g'), false);
    assert_eq!(ed.output.c_ctrl.cy, 0);
}

#[test]
fn prefix_is_cleared_by_unrelated_key() {
    let mut ed = editor("a\nb\nc");
    ed.press(Key::Char('G'), false);
    ed.press(Key::Char('g'), false);
    ed.press(Key::Char('x'), false);
    ed.press(Key::Char('g'), false);
    assert_eq!(ed.output.c_ctrl.cy, 2);
    ed.press(Key::Char('g'), false);
    assert_eq!(ed.output.c_ctrl.cy, 0);
}

#[test]
fn double_d_deletes_current_line() {
    let mut ed = editor("a\nb\nc");
    ed.press(Key::Char('j'), false);
    ed.press(Key::Char('d'), false);
    assert_eq!(ed.e_rows.num_rows(), 3);
    ed.press(Key::Char('d'), false);
    assert_eq!(ed.e_rows.num_rows(), 2);
    assert_eq!(*ed.e_rows.get_raw(0), chars("a"));
    assert_eq!(*ed.e_rows.get_raw(1), chars("c"));
    assert_eq!((ed.output.c_ctrl.cx, ed.output.c_ctrl.cy), (0, 0));
}

#[test]
fn double_d_on_only_line_clears_it() {
    let mut ed = editor("abc");
    ed.press(Key::Char('d'), false);
    ed.press(Key::Char('d'), false);
    assert_eq!(ed.e_rows.num_rows(), 1);
    assert_eq!(*ed.e_rows.get_raw(0), chars(""));
}

#[test]
fn x_deletes_under_cursor_and_clamps() {
    let mut ed = editor("ab");
    ed.press(Key::Char('l'), false);
    ed.press(Key::Char('x'), false);
    assert_eq!(*ed.e_rows.get_raw(0), chars("a"));
    assert_eq!(ed.output.c_ctrl.cx, 0);
    assert_eq!(ed.output.dirty, 1);
}

#[test]
fn word_keys_move_by_words() {
    let mut ed = editor("  foo bar");
    ed.press(Key::Char('w'), false);
    assert_eq!(ed.output.c_ctrl.cx, 2);
    ed.press(Key::Char('w'), false);
    assert_eq!(ed.output.c_ctrl.cx, 6);
    ed.press(Key::Char('b'), false);
    assert_eq!(ed.output.c_ctrl.cx, 4);
}

#[test]
fn g_then_e_walks_back_to_run_start() {
    let mut ed = editor("x foo bar");
    ed.press(Key::Char('$'), false);
    assert_eq!(ed.output.c_ctrl.cx, 8);
    ed.press(Key::Char('g'), false);
    ed.press(Key::Char('e'), false);
    assert_eq!(ed.output.c_ctrl.cx, 2);
}

#[test]
fn colon_enters_command_mode_and_resets_command_state() {
    let mut ed = editor("ab");
    ed.press(Key::Char(':'), false);
    assert!(matches!(ed.mode, Mode::Command));
    assert_eq!(ed.output.c_ctrl.cmdx, 1);
    assert!(ed.output.cmd.is_none());
    assert!(ed.output.stt_msg.is_none());
    assert!(ed.output.cmd_msg.is_none());
}

#[test]
fn command_characters_accumulate_and_backspace_edits() {
    let mut ed = editor("ab");
    ed.press(Key::Char(':'), false);
    ed.press(Key::Char('w'), false);
    ed.press(Key::Char('q'), false);
    assert_eq!(ed.output.cmd.as_ref().unwrap(), &chars("wq"));
    assert_eq!(ed.output.c_ctrl.cmdx, 3);
    ed.press(Key::Backspace, false);
    assert_eq!(ed.output.cmd.as_ref().unwrap(), &chars("w"));
    assert_eq!(ed.output.c_ctrl.cmdx, 2);
}

#[test]
fn escape_cancels_command_mode() {
    let mut ed = editor("ab");
    ed.press(Key::Char(':'), false);
    ed.press(Key::Char('q'), false);
    let r = ed.press(Key::Esc, false);
    assert!(matches!(r, EditorAction::Continue));
    assert!(matches!(ed.mode, Mode::Normal));
}

#[test]
fn quit_with_unsaved_changes_stays_with_danger_message() {
    let mut ed = editor("ab");
    ed.press(Key::Char('i'), false);
    ed.press(Key::Char('z'), false);
    ed.press(Key::Esc, false);
    assert!(ed.output.dirty > 0);
    let r = type_command(&mut ed, "q");
    assert!(matches!(r, EditorAction::Continue));
    assert!(matches!(ed.mode, Mode::Normal));
    let msg = ed.output.cmd_msg.as_ref().unwrap();
    assert_eq!(msg.content, chars("Found unsaved changes, q! to force quit"));
    assert!(matches!(msg.level, MessageLevel::Danger));
}

#[test]
fn force_quit_quits_despite_unsaved_changes() {
    let mut ed = editor("ab");
    ed.press(Key::Char('i'), false);
    ed.press(Key::Char('z'), false);
    ed.press(Key::Esc, false);
    let r = type_command(&mut ed, "q!");
    assert!(matches!(r, EditorAction::Quit));
}

#[test]
fn quit_clean_buffer_quits() {
    let mut ed = editor("ab");
    let r = type_command(&mut ed, "q");
    assert!(matches!(r, EditorAction::Quit));
}

#[test]
fn write_without_filename_reports_danger() {
    let mut ed = editor("ab");
    let r = type_command(&mut ed, "w");
    assert!(matches!(r, EditorAction::Continue));
    let msg = ed.output.cmd_msg.as_ref().unwrap();
    assert_eq!(msg.content, chars("No file name specified"));
    assert!(matches!(msg.level, MessageLevel::Danger));
}

#[test]
fn write_quit_without_filename_reports_danger() {
    let mut ed = editor("ab");
    let r = type_command(&mut ed, "wq");
    assert!(matches!(r, EditorAction::Continue));
    let msg = ed.output.cmd_msg.as_ref().unwrap();
    assert_eq!(msg.content, chars("No file name specified"));
}

#[test]
fn write_with_filename_associates_and_requests_save() {
    let mut ed = editor("ab");
    let r = type_command(&mut ed, "w out.txt");
    assert!(matches!(r, EditorAction::Save { and_quit: false }));
    assert_eq!(ed.e_rows.filename.as_ref().unwrap(), &chars("out.txt"));
}

#[test]
fn write_quit_with_filename_requests_save_then_quit() {
    let mut ed = editor("ab");
    let r = type_command(&mut ed, "wq out.txt");
    assert!(matches!(r, EditorAction::Save { and_quit: true }));
}

#[test]
fn write_with_associated_filename_requests_save() {
    let mut ed = editor("ab");
    ed.e_rows.set_filename("f.txt");
    let r = type_command(&mut ed, "w");
    assert!(matches!(r, EditorAction::Save { and_quit: false }));
}

#[test]
fn unknown_command_reports_danger_with_text() {
    let mut ed = editor("ab");
    let r = type_command(&mut ed, "nope x");
    assert!(matches!(r, EditorAction::Continue));
    let msg = ed.output.cmd_msg.as_ref().unwrap();
    assert_eq!(msg.content, chars("Unknown command 'nope x'"));
    assert!(matches!(msg.level, MessageLevel::Danger));
}

#[test]
fn empty_command_reports_no_command_found() {
    let mut ed = editor("ab");
    let r = type_command(&mut ed, "");
    assert!(matches!(r, EditorAction::Continue));
    let msg = ed.output.cmd_msg.as_ref().unwrap();
    assert_eq!(msg.content, chars("No command found"));
}

#[test]
fn save_done_reports_bytes_and_resets_dirty() {
    let mut ed = editor("ab\ncd");
    ed.press(Key::Char('i'), false);
    ed.press(Key::Char('z'), false);
    ed.press(Key::Esc, false);
    assert!(ed.output.dirty > 0);
    let written = ed.e_rows.serialize().len();
    assert_eq!(written, 6);
    let r = ed.save_done(written, false);
    assert!(matches!(r, EditorAction::Continue));
    assert_eq!(ed.output.dirty, 0);
    let msg = ed.output.cmd_msg.as_ref().unwrap();
    assert_eq!(msg.content, chars("6 bytes written to disk"));
    assert!(matches!(msg.level, MessageLevel::Normal));
}

#[test]
fn save_done_with_quit_returns_quit() {
    let mut ed = editor("ab");
    let r = ed.save_done(2, true);
    assert!(matches!(r, EditorAction::Quit));
}

#[test]
fn save_failed_keeps_dirty_and_shows_error() {
    let mut ed = editor("ab");
    ed.press(Key::Char('i'), false);
    ed.press(Key::Char('z'), false);
    ed.press(Key::Esc, false);
    let dirty = ed.output.dirty;
    ed.save_failed("permission denied");
    assert_eq!(ed.output.dirty, dirty);
    let msg = ed.output.cmd_msg.as_ref().unwrap();
    assert_eq!(msg.content, chars("permission denied"));
    assert!(matches!(msg.level, MessageLevel::Danger));
}

#[test]
fn control_s_requests_quick_save_in_any_mode() {
    let mut ed = editor("ab");
    let r = ed.press(Key::Char('s'), true);
    assert!(matches!(r, EditorAction::QuickSave));
    ed.press(Key::Char('i'), false);
    let r2 = ed.press(Key::Char('s'), true);
    assert!(matches!(r2, EditorAction::QuickSave));
}

#[test]
fn quick_save_done_reports_in_status_message() {
    let mut ed = editor("ab");
    ed.quick_save_done(2);
    assert_eq!(ed.output.dirty, 0);
    let msg = ed.output.stt_msg.as_ref().unwrap();
    assert_eq!(msg.content, chars("2 bytes written to disk"));
}

#[test]
fn saved_byte_count_equals_reloaded_size() {
    let ed = editor("ab\ncd");
    let saved = ed.e_rows.serialize();
    assert_eq!(saved.len(), 5);
    let reloaded = EditorRows::from_content(&saved);
    assert_eq!(reloaded.serialize().len(), saved.len());
}

#[test]
fn arrows_move_in_insert_mode_too() {
    let mut ed = editor("abc\ndef");
    ed.press(Key::Char('i'), false);
    ed.press(Key::Down, false);
    ed.press(Key::Right, false);
    assert_eq!((ed.output.c_ctrl.cx, ed.output.c_ctrl.cy), (1, 1));
}

#[test]
fn e_key_moves_to_word_end() {
    let mut ed = editor("foo bar");
    ed.press(Key::Char('e'), false);
    assert_eq!(ed.output.c_ctrl.cx, 2);
}

#[test]
fn double_d_counts_as_unsaved_mutation() {
    let mut ed = editor("a\nb");
    ed.press(Key::Char('d'), false);
    assert_eq!(ed.output.dirty, 0);
    ed.press(Key::Char('d'), false);
    assert_eq!(ed.output.dirty, 1);
}

#[test]
fn x_on_empty_line_changes_nothing() {
    let mut ed = editor("");
    ed.press(Key::Char('x'), false);
    assert_eq!(*ed.e_rows.get_raw(0), chars(""));
    assert_eq!(ed.output.dirty, 0);
}

#[test]
fn command_with_extra_spaces_is_unknown() {
    let mut ed = editor("ab");
    let r = type_command(&mut ed, "w  ");
    assert!(matches!(r, EditorAction::Continue));
    let msg = ed.output.cmd_msg.as_ref().unwrap();
    assert_eq!(msg.content, chars("Unknown command 'w  '"));
}

#[test]
fn reentering_command_mode_clears_old_command_and_messages() {
    let mut ed = editor("ab");
    type_command(&mut ed, "nope");
    assert!(ed.output.cmd_msg.is_some());
    ed.press(Key::Char(':'), false);
    assert!(ed.output.cmd.is_none());
    assert!(ed.output.cmd_msg.is_none());
    assert_eq!(ed.output.c_ctrl.cmdx, 1);
}

#[test]
fn escape_from_insert_pulls_cursor_left() {
    let mut ed = editor("ab");
    ed.press(Key::Char('A'), false);
    assert_eq!(ed.output.c_ctrl.cx, 2);
    ed.press(Key::Esc, false);
    assert_eq!(ed.output.c_ctrl.cx, 1);
}

#[test]
fn command_string_is_cleared_on_submit() {
    let mut ed = editor("ab");
    type_command(&mut ed, "nope");
    assert!(matches!(ed.mode, Mode::Normal));
    assert!(ed.output.cmd.is_none());
    assert_eq!(ed.output.c_ctrl.cmdx, 1);
}

#[test]
fn command_string_is_cleared_on_cancel() {
    let mut ed = editor("ab");
    ed.press(Key::Char(':'), false);
    ed.press(Key::Char('q'), false);
    assert!(ed.output.cmd.is_some());
    ed.press(Key::Esc, false);
    assert!(matches!(ed.mode, Mode::Normal));
    assert!(ed.output.cmd.is_none());
    assert_eq!(ed.output.c_ctrl.cmdx, 1);
}
