//! The Normal-mode key handler: single-key motions and edits, the entries
//! into Insert and Command mode, and the two-key prefix machine for `gg`,
//! `dd` and `ge`.

use vstd::prelude::*;

use crate::cursor::{col_bound, mv_cursor, CursorController, Direction, Mode};
use crate::editor::{Editor, Key};
use crate::out::bump;
use crate::words::{end_col, next_word_col, prev_word_col, start_col};

verus! {

/// One Normal-mode cursor motion: the cursor moves as [`mv_cursor`] says
/// and everything else but the armed prefix stays.
pub open spec fn normal_motion(a: Editor, b: Editor, dir: Direction) -> bool {
    &&& (b.output.c_ctrl.cx as int, b.output.c_ctrl.cy as int) == mv_cursor(
        a.output.c_ctrl.cx as int,
        a.output.c_ctrl.cy as int,
        dir,
        a.e_rows.raws(),
        Mode::Normal,
    )
    &&& b.output.c_ctrl.cmdx == a.output.c_ctrl.cmdx
    &&& b.mode == a.mode
    &&& b.e_rows == a.e_rows
    &&& b.output.stt_msg == a.output.stt_msg
    &&& b.output.cmd_msg == a.output.cmd_msg
    &&& b.output.cmd == a.output.cmd
    &&& b.output.dirty == a.output.dirty
    &&& b.last_key is None
}

/// The message and mode effects of entering Insert mode: the mode banner
/// replaces the status message and the old command message is dropped.
pub open spec fn entered_insert(a: Editor, b: Editor) -> bool {
    &&& b.mode is Insert
    &&& b.output.stt_msg matches Some(m) && m.content@ == "-- INSERT --"@ && m.level is Normal
    &&& b.output.cmd_msg is None
    &&& b.output.cmd == a.output.cmd
    &&& b.output.c_ctrl.cmdx == a.output.c_ctrl.cmdx
    &&& b.last_key is None
}

/// Everything but the armed prefix stays as it was.
pub open spec fn only_prefix(a: Editor, b: Editor) -> bool {
    &&& b.mode == a.mode
    &&& b.output == a.output
    &&& b.e_rows == a.e_rows
}

/// The full effect of one Normal-mode key on the editor: the transition
/// relation that [`Editor::handle_normal_press`] establishes.
pub open spec fn normal_step(a: Editor, b: Editor, key: Key) -> bool {
    let cx = a.output.c_ctrl.cx as int;
    let cy = a.output.c_ctrl.cy as int;
    let raws = a.e_rows.raws();
    let row = raws[cy];
    let prev = a.last_key;
    &&& b.output.c_ctrl.rx == a.output.c_ctrl.rx
    &&& b.output.c_ctrl.screen_size == a.output.c_ctrl.screen_size
    &&& b.output.c_ctrl.y_offset == a.output.c_ctrl.y_offset
    &&& b.output.c_ctrl.x_offset == a.output.c_ctrl.x_offset
    &&& (match key {
    Key::Up => normal_motion(a, b, Direction::Up),
    Key::Down => normal_motion(a, b, Direction::Down),
    Key::Left => normal_motion(a, b, Direction::Left),
    Key::Right => normal_motion(a, b, Direction::Right),
    Key::Char(ch) => {
        if ch == ':' {
            &&& b.mode is Command
            &&& b.e_rows == a.e_rows
            &&& b.output.c_ctrl == (CursorController {
                cmdx: 1,
                ..a.output.c_ctrl
            })
            &&& b.output.stt_msg is None
            &&& b.output.cmd_msg is None
            &&& b.output.cmd is None
            &&& b.output.dirty == a.output.dirty
            &&& b.last_key is None
        } else if ch == 'k' {
            normal_motion(a, b, Direction::Up)
        } else if ch == 'j' {
            normal_motion(a, b, Direction::Down)
        } else if ch == 'h' {
            normal_motion(a, b, Direction::Left)
        } else if ch == 'l' {
            normal_motion(a, b, Direction::Right)
        } else if ch == 'i' {
            &&& entered_insert(a, b)
            &&& b.e_rows == a.e_rows
            &&& b.output.dirty == a.output.dirty
            &&& b.output.c_ctrl.cx == a.output.c_ctrl.cx
            &&& b.output.c_ctrl.cy == a.output.c_ctrl.cy
        } else if ch == 'I' {
            &&& entered_insert(a, b)
            &&& b.e_rows == a.e_rows
            &&& b.output.dirty == a.output.dirty
            &&& b.output.c_ctrl.cx == start_col(row)
            &&& b.output.c_ctrl.cy == a.output.c_ctrl.cy
        } else if ch == 'a' {
            &&& entered_insert(a, b)
            &&& b.e_rows == a.e_rows
            &&& b.output.dirty == a.output.dirty
            &&& (b.output.c_ctrl.cx as int, b.output.c_ctrl.cy as int)
                == mv_cursor(cx, cy, Direction::Right, raws, Mode::Insert)
        } else if ch == 'A' {
            &&& entered_insert(a, b)
            &&& b.e_rows == a.e_rows
            &&& b.output.dirty == a.output.dirty
            &&& b.output.c_ctrl.cx == row.len()
            &&& b.output.c_ctrl.cy == a.output.c_ctrl.cy
        } else if ch == 'o' {
            &&& entered_insert(a, b)
            &&& b.e_rows.raws() == raws.insert(cy + 1, Seq::<char>::empty())
            &&& b.e_rows.filename == a.e_rows.filename
            &&& b.output.dirty == bump(a.output.dirty)
            &&& b.output.c_ctrl.cx == 0
            &&& b.output.c_ctrl.cy == cy + 1
        } else if ch == 'O' {
            &&& entered_insert(a, b)
            &&& b.e_rows.raws() == raws.insert(cy, Seq::<char>::empty())
            &&& b.e_rows.filename == a.e_rows.filename
            &&& b.output.dirty == bump(a.output.dirty)
            &&& b.output.c_ctrl.cx == 0
            &&& b.output.c_ctrl.cy == cy
        } else if ch == 'G' {
            &&& only_prefix_cursor(a, b)
            &&& b.output.c_ctrl.cy == raws.len() - 1
            &&& b.output.c_ctrl.cx as int == clamp_to(
                cx,
                col_bound(raws[raws.len() - 1], Mode::Normal),
            )
            &&& b.last_key is None
        } else if ch == 'g' {
            if prev == Some(Key::Char('g')) {
                &&& only_prefix_cursor(a, b)
                &&& b.output.c_ctrl.cy == 0
                &&& b.output.c_ctrl.cx as int == clamp_to(
                    cx,
                    col_bound(raws[0], Mode::Normal),
                )
                &&& b.last_key is None
            } else {
                &&& only_prefix(a, b)
                &&& b.last_key == Some(Key::Char('g'))
            }
        } else if ch == 'd' {
            if prev == Some(Key::Char('d')) {
                &&& (if raws.len() == 1 {
                    b.e_rows.raws() == seq![Seq::<char>::empty()]
                } else {
                    b.e_rows.raws() == raws.remove(cy)
                })
                &&& b.e_rows.filename == a.e_rows.filename
                &&& b.output.c_ctrl == (CursorController {
                    cx: 0,
                    cy: if raws.len() > 1 && cy > 0 {
                        (cy - 1) as usize
                    } else {
                        0
                    },
                    ..a.output.c_ctrl
                })
                &&& b.output.dirty == bump(a.output.dirty)
                &&& b.mode == a.mode
                &&& b.output.stt_msg == a.output.stt_msg
                &&& b.output.cmd_msg == a.output.cmd_msg
                &&& b.output.cmd == a.output.cmd
                &&& b.last_key is None
            } else {
                &&& only_prefix(a, b)
                &&& b.last_key == Some(Key::Char('d'))
            }
        } else if ch == 'x' {
            &&& (if row.len() > 0 {
                b.e_rows.raws() == raws.update(cy, row.remove(cx))
                    && b.output.c_ctrl == (CursorController {
                    cx: clamp_to(
                        cx,
                        col_bound(row.remove(cx), Mode::Normal),
                    ) as usize,
                    ..a.output.c_ctrl
                }) && b.output.dirty == bump(a.output.dirty)
            } else {
                b.e_rows == a.e_rows && b.output.c_ctrl == a.output.c_ctrl
                    && b.output.dirty == a.output.dirty
            })
            &&& b.e_rows.filename == a.e_rows.filename
            &&& b.mode == a.mode
            &&& b.output.stt_msg == a.output.stt_msg
            &&& b.output.cmd_msg == a.output.cmd_msg
            &&& b.output.cmd == a.output.cmd
            &&& b.last_key is None
        } else if ch == 'w' {
            &&& word_motion_fwd(a, b, false)
            &&& b.last_key is None
        } else if ch == 'b' {
            &&& word_motion_back(a, b, false)
            &&& b.last_key is None
        } else if ch == 'e' {
            &&& (if prev == Some(Key::Char('g')) {
                word_motion_back(a, b, true)
            } else {
                word_motion_fwd(a, b, true)
            })
            &&& b.last_key is None
        } else if ch == '_' {
            &&& only_prefix_cursor(a, b)
            &&& b.output.c_ctrl.cy == a.output.c_ctrl.cy
            &&& b.output.c_ctrl.cx == start_col(row)
            &&& b.last_key is None
        } else if ch == '$' {
            &&& only_prefix_cursor(a, b)
            &&& b.output.c_ctrl.cy == a.output.c_ctrl.cy
            &&& b.output.c_ctrl.cx == end_col(row, Mode::Normal)
            &&& b.last_key is None
        } else {
            &&& only_prefix(a, b)
            &&& b.last_key is None
        }
    },
    _ => {
        &&& only_prefix(a, b)
        &&& b.last_key is None
    },
    })
}

impl Editor {
    /// One Normal-mode key.  Motions move the cursor, edits change the
    /// buffer, `i`/`I`/`a`/`A`/`o`/`O` enter Insert mode, `:` enters
    /// Command mode, and `g`/`d` arm the two-key prefix that `gg`, `dd`
    /// and `ge` complete; any key that completes no pair clears the
    /// prefix.
    pub fn handle_normal_press(&mut self, key: Key)
        requires
            old(self).wf(),
            old(self).room(),
            old(self).mode is Normal,
        ensures
            final(self).wf(),
            normal_step(*old(self), *final(self), key),
    {
        let prev = self.last_key;
        self.last_key = None;
        match key {
            Key::Char(':') => {
                self.change_mode(Mode::Command);
            },
            Key::Up | Key::Char('k') => {
                self.output.move_cursor(Direction::Up, &self.e_rows, &Mode::Normal);
            },
            Key::Down | Key::Char('j') => {
                self.output.move_cursor(Direction::Down, &self.e_rows, &Mode::Normal);
            },
            Key::Left | Key::Char('h') => {
                self.output.move_cursor(Direction::Left, &self.e_rows, &Mode::Normal);
            },
            Key::Right | Key::Char('l') => {
                self.output.move_cursor(Direction::Right, &self.e_rows, &Mode::Normal);
            },
            Key::Char('i') => {
                self.change_mode(Mode::Insert);
            },
            Key::Char('I') => {
                self.change_mode(Mode::Insert);
                self.output.goto_start_line(&self.e_rows);
            },
            Key::Char('a') => {
                self.change_mode(Mode::Insert);
                self.output.move_cursor(Direction::Right, &self.e_rows, &Mode::Insert);
            },
            Key::Char('A') => {
                self.change_mode(Mode::Insert);
                let m = self.mode;
                self.output.goto_end_line(&self.e_rows, &m);
            },
            Key::Char('o') => {
                self.output.new_line(Direction::Down, &mut self.e_rows);
                self.change_mode(Mode::Insert);
            },
            Key::Char('O') => {
                self.output.new_line(Direction::Up, &mut self.e_rows);
                self.change_mode(Mode::Insert);
            },
            Key::Char('G') => {
                let y = self.e_rows.num_rows() - 1;
                self.output.goto_y(y, &self.e_rows, &Mode::Normal);
            },
            Key::Char('g') => {
                match prev {
                    Some(Key::Char('g')) => {
                        self.output.goto_y(0, &self.e_rows, &Mode::Normal);
                    },
                    _ => {
                        self.last_key = Some(key);
                    },
                }
            },
            Key::Char('d') => {
                match prev {
                    Some(Key::Char('d')) => {
                        self.output.delete_line(&mut self.e_rows);
                    },
                    _ => {
                        self.last_key = Some(key);
                    },
                }
            },
            Key::Char('x') => {
                self.output.delete_char(&mut self.e_rows, &Mode::Normal);
            },
            Key::Char('w') => {
                self.output.next_word(&self.e_rows, false);
            },
            Key::Char('b') => {
                self.output.prev_word(&self.e_rows, false);
            },
            Key::Char('e') => {
                match prev {
                    Some(Key::Char('g')) => {
                        self.output.prev_word(&self.e_rows, true);
                    },
                    _ => {
                        self.output.next_word(&self.e_rows, true);
                    },
                }
            },
            Key::Char('_') => {
                self.output.goto_start_line(&self.e_rows);
            },
            Key::Char('$') => {
                let m = self.mode;
                self.output.goto_end_line(&self.e_rows, &m);
            },
            _ => {},
        }
    }
}

/// `x` clamped from above to `b`.
pub open spec fn clamp_to(x: int, b: int) -> int {
    if x <= b {
        x
    } else {
        b
    }
}

/// Everything but the cursor position and the armed prefix stays.
pub open spec fn only_prefix_cursor(a: Editor, b: Editor) -> bool {
    &&& b.mode == a.mode
    &&& b.e_rows == a.e_rows
    &&& b.output.c_ctrl.cmdx == a.output.c_ctrl.cmdx
    &&& b.output.stt_msg == a.output.stt_msg
    &&& b.output.cmd_msg == a.output.cmd_msg
    &&& b.output.cmd == a.output.cmd
    &&& b.output.dirty == a.output.dirty
}

/// A forward word motion (`w` when `to_end` is false, `e` when true):
/// within the line the cursor lands where [`next_word_col`] says; from the
/// last column it wraps to the start of the next line, staying put on the
/// last line.
pub open spec fn word_motion_fwd(a: Editor, b: Editor, to_end: bool) -> bool {
    let cx = a.output.c_ctrl.cx as int;
    let cy = a.output.c_ctrl.cy as int;
    let raws = a.e_rows.raws();
    let row = raws[cy];
    &&& only_prefix_cursor(a, b)
    &&& if cx == col_bound(row, Mode::Normal) {
        if cy + 1 < raws.len() {
            b.output.c_ctrl.cx == 0 && b.output.c_ctrl.cy == cy + 1
        } else {
            b.output.c_ctrl == a.output.c_ctrl
        }
    } else {
        b.output.c_ctrl.cx == next_word_col(row, cx, to_end) && b.output.c_ctrl.cy == cy
    }
}

/// A backward word motion (`b` when `to_start` is false, `ge` when true):
/// within the line the cursor lands where [`prev_word_col`] says; from
/// column 0 it wraps to the last column of the previous line, staying put
/// on the first line.
pub open spec fn word_motion_back(a: Editor, b: Editor, to_start: bool) -> bool {
    let cx = a.output.c_ctrl.cx as int;
    let cy = a.output.c_ctrl.cy as int;
    let raws = a.e_rows.raws();
    let row = raws[cy];
    &&& only_prefix_cursor(a, b)
    &&& if cx == 0 {
        if cy > 0 {
            b.output.c_ctrl.cx == col_bound(raws[cy - 1], Mode::Normal) && b.output.c_ctrl.cy == cy
                - 1
        } else {
            b.output.c_ctrl == a.output.c_ctrl
        }
    } else {
        b.output.c_ctrl.cx == prev_word_col(row, cx, to_start) && b.output.c_ctrl.cy == cy
    }
}

} // verus!
