//! The output state of the editor: cursor controller, status and command
//! messages, the pending command line, and the dirty counter, together with
//! the edit operations that the modal dispatcher routes to.  Every
//! operation states exactly how it moves the cursor and rewrites the
//! buffer.

use vstd::prelude::*;

use crate::buffer::EditorRows;
use crate::cursor::{cmd_cursor, col_bound, mv_cursor, CursorController, Direction, Mode};
use crate::text::str_chars;

verus! {

/// How prominently a message is shown.
#[derive(Clone, Copy, PartialEq, Eq, Structural, Debug)]
pub enum MessageLevel {
    /// An informational message.
    Normal,
    /// An error the user should notice (rendered inverted).
    Danger,
}

/// A one-line message for the message row.
#[derive(Debug)]
pub struct StatusMessage {
    /// The message text.
    pub content: Vec<char>,
    /// Its prominence.
    pub level: MessageLevel,
}

impl StatusMessage {
    /// A message holding the characters of `msg`.
    pub fn new(msg: &str, level: MessageLevel) -> (m: StatusMessage)
        ensures
            m.content@ == msg@,
            m.level == level,
    {
        StatusMessage { content: str_chars(msg), level }
    }
}

/// The dirty counter after one more unsaved mutation: it grows by one and
/// saturates at its maximum.
pub open spec fn bump(d: u64) -> u64 {
    if d == u64::MAX {
        d
    } else {
        (d + 1) as u64
    }
}

/// Cursor, scroll, message and command-line state of the editor.
pub struct Output {
    /// Cursor and scroll state.
    pub c_ctrl: CursorController,
    /// The most recent status message (mode banners, save reports).
    pub stt_msg: Option<StatusMessage>,
    /// The most recent command result message; shown before `stt_msg`.
    pub cmd_msg: Option<StatusMessage>,
    /// The pending command string, while one is being composed.
    pub cmd: Option<Vec<char>>,
    /// Count of unsaved mutations; zero means saved.
    pub dirty: u64,
}

impl Output {
    /// The length of the pending command string (0 when none).
    pub open spec fn cmd_len(self) -> int {
        match self.cmd {
            Some(c) => c@.len() as int,
            None => 0,
        }
    }

    /// The command-line cursor stays within the command: column 1 up to one
    /// past its end.
    pub open spec fn wf_cmd(self) -> bool {
        &&& 1 <= self.c_ctrl.cmdx <= self.cmd_len() + 1
        &&& self.cmd_len() < usize::MAX
    }

    /// Fresh output state for a screen of `screen_size` (columns, text
    /// rows): cursor at the origin, no messages, no command, not dirty.
    pub fn new(screen_size: (usize, usize)) -> (out: Output)
        ensures
            out.c_ctrl == (CursorController {
                cx: 0,
                cy: 0,
                rx: 0,
                cmdx: 1,
                screen_size,
                y_offset: 0,
                x_offset: 0,
            }),
            out.stt_msg is None,
            out.cmd_msg is None,
            out.cmd is None,
            out.dirty == 0,
            out.wf_cmd(),
    {
        Output {
            c_ctrl: CursorController::new(screen_size),
            stt_msg: None,
            cmd_msg: None,
            cmd: None,
            dirty: 0,
        }
    }

    /// Insert `c` at the cursor: the character lands at the cursor column
    /// of the cursor row, the cursor advances one column, and the buffer
    /// becomes dirtier.
    pub fn insert(&mut self, e_rows: &mut EditorRows, c: char)
        requires
            old(self).c_ctrl.cy < old(e_rows).raws().len(),
            old(self).c_ctrl.cx <= old(e_rows).raws()[old(self).c_ctrl.cy as int].len(),
            old(e_rows).raws()[old(self).c_ctrl.cy as int].len() < usize::MAX,
        ensures
            final(e_rows).raws() =~= old(e_rows).raws().update(
                old(self).c_ctrl.cy as int,
                old(e_rows).raws()[old(self).c_ctrl.cy as int].insert(
                    old(self).c_ctrl.cx as int,
                    c,
                ),
            ),
            old(e_rows).wf() ==> final(e_rows).wf(),
            final(e_rows).filename == old(e_rows).filename,
            final(self).c_ctrl == (CursorController {
                cx: (old(self).c_ctrl.cx + 1) as usize,
                ..old(self).c_ctrl
            }),
            final(self).dirty == bump(old(self).dirty),
            final(self).stt_msg == old(self).stt_msg,
            final(self).cmd_msg == old(self).cmd_msg,
            final(self).cmd == old(self).cmd,
    {
        let x = self.c_ctrl.cx;
        let y = self.c_ctrl.cy;
        let row = e_rows.get_erow_mut(y);
        row.insert(x, c);
        self.c_ctrl.cx = self.c_ctrl.cx + 1;
        if self.dirty < u64::MAX {
            self.dirty = self.dirty + 1;
        }
        proof {
            assert(final(e_rows).raws() =~= old(e_rows).raws().update(
                old(self).c_ctrl.cy as int,
                old(e_rows).raws()[old(self).c_ctrl.cy as int].insert(
                    old(self).c_ctrl.cx as int,
                    c,
                ),
            ));
        }
    }

    /// Open a new empty line above (`Up`) or below (`Down`) the cursor row
    /// and move the cursor to its first column.
    pub fn new_line(&mut self, dir: Direction, e_rows: &mut EditorRows)
        requires
            dir is Up || dir is Down,
            old(self).c_ctrl.cy < old(e_rows).raws().len(),
            old(e_rows).raws().len() < usize::MAX,
        ensures
            ({
                let y = if dir is Up {
                    old(self).c_ctrl.cy as int
                } else {
                    old(self).c_ctrl.cy + 1
                };
                &&& final(e_rows).raws() =~= old(e_rows).raws().insert(y, Seq::<char>::empty())
                &&& final(self).c_ctrl == (CursorController {
                    cx: 0,
                    cy: y as usize,
                    ..old(self).c_ctrl
                })
            }),
            old(e_rows).wf() ==> final(e_rows).wf(),
            final(e_rows).filename == old(e_rows).filename,
            final(self).dirty == bump(old(self).dirty),
            final(self).stt_msg == old(self).stt_msg,
            final(self).cmd_msg == old(self).cmd_msg,
            final(self).cmd == old(self).cmd,
    {
        let y = match dir {
            Direction::Up => self.c_ctrl.cy,
            Direction::Down => self.c_ctrl.cy + 1,
            _ => self.c_ctrl.cy,
        };
        e_rows.insert_erow(y, Vec::new());
        self.c_ctrl.cy = y;
        self.c_ctrl.cx = 0;
        if self.dirty < u64::MAX {
            self.dirty = self.dirty + 1;
        }
    }

    /// Delete the cursor row; the only row of a buffer is emptied instead
    /// of removed, so the buffer never becomes empty.  The cursor moves to
    /// the first column of the previous row (or stays on row 0).
    pub fn delete_line(&mut self, e_rows: &mut EditorRows)
        requires
            old(self).c_ctrl.cy < old(e_rows).raws().len(),
        ensures
            old(e_rows).raws().len() == 1 ==> final(e_rows).raws() =~= seq![Seq::<char>::empty()],
            old(e_rows).raws().len() > 1 ==> final(e_rows).raws() =~= old(e_rows).raws().remove(
                old(self).c_ctrl.cy as int,
            ),
            final(self).c_ctrl == (CursorController {
                cx: 0,
                cy: if old(e_rows).raws().len() > 1 && old(self).c_ctrl.cy > 0 {
                    (old(self).c_ctrl.cy - 1) as usize
                } else {
                    0
                },
                ..old(self).c_ctrl
            }),
            final(self).c_ctrl.cy < final(e_rows).raws().len(),
            old(e_rows).wf() ==> final(e_rows).wf(),
            final(e_rows).filename == old(e_rows).filename,
            final(self).dirty == bump(old(self).dirty),
            final(self).stt_msg == old(self).stt_msg,
            final(self).cmd_msg == old(self).cmd_msg,
            final(self).cmd == old(self).cmd,
    {
        let n_rows = e_rows.num_rows();
        if n_rows == 1 {
            e_rows.clear_erow(self.c_ctrl.cy);
        } else {
            e_rows.delete_erow(self.c_ctrl.cy);
            if self.c_ctrl.cy > 0 {
                self.c_ctrl.cy = self.c_ctrl.cy - 1;
            }
        }
        self.c_ctrl.cx = 0;
        if self.dirty < u64::MAX {
            self.dirty = self.dirty + 1;
        }
    }

    /// Split the cursor row at the cursor: text before the cursor stays,
    /// text from the cursor onward becomes a new line below, and the cursor
    /// moves to the first column of that new line.
    pub fn break_line(&mut self, e_rows: &mut EditorRows)
        requires
            old(self).c_ctrl.cy < old(e_rows).raws().len(),
            old(self).c_ctrl.cx <= old(e_rows).raws()[old(self).c_ctrl.cy as int].len(),
            old(e_rows).raws().len() < usize::MAX,
        ensures
            ({
                let cy = old(self).c_ctrl.cy as int;
                let cx = old(self).c_ctrl.cx as int;
                let row = old(e_rows).raws()[cy];
                final(e_rows).raws() =~= old(e_rows).raws().update(cy, row.take(cx)).insert(
                    cy + 1,
                    row.skip(cx),
                )
            }),
            final(self).c_ctrl == (CursorController {
                cx: 0,
                cy: (old(self).c_ctrl.cy + 1) as usize,
                ..old(self).c_ctrl
            }),
            old(e_rows).wf() ==> final(e_rows).wf(),
            final(e_rows).filename == old(e_rows).filename,
            final(self).dirty == bump(old(self).dirty),
            final(self).stt_msg == old(self).stt_msg,
            final(self).cmd_msg == old(self).cmd_msg,
            final(self).cmd == old(self).cmd,
    {
        let cy = self.c_ctrl.cy;
        let cx = self.c_ctrl.cx;
        let tail: Vec<char>;
        {
            let row = e_rows.get_erow_mut(cy);
            tail = row.raw.split_off(cx);
            row.render();
        }
        e_rows.insert_erow(cy + 1, tail);
        self.c_ctrl.cy = cy + 1;
        self.c_ctrl.cx = 0;
        if self.dirty < u64::MAX {
            self.dirty = self.dirty + 1;
        }
        proof {
            let cyi = old(self).c_ctrl.cy as int;
            let cxi = old(self).c_ctrl.cx as int;
            let row = old(e_rows).raws()[cyi];
            assert(final(e_rows).raws() =~= old(e_rows).raws().update(cyi, row.take(cxi)).insert(
                cyi + 1,
                row.skip(cxi),
            ));
        }
    }

    /// Delete at the cursor, as the mode asks: Normal deletes the character
    /// under the cursor; Insert deletes the character left of the cursor,
    /// or joins the line onto the previous one at column 0; Command removes
    /// the command character left of the command cursor.
    pub fn delete_char(&mut self, e_rows: &mut EditorRows, mode: &Mode)
        requires
            old(self).c_ctrl.cy < old(e_rows).raws().len(),
            old(self).c_ctrl.cx <= col_bound(old(e_rows).raws()[old(self).c_ctrl.cy as int], *mode),
            *mode is Command ==> old(self).wf_cmd(),
        ensures
            ({
                let cy = old(self).c_ctrl.cy as int;
                let cx = old(self).c_ctrl.cx as int;
                let row = old(e_rows).raws()[cy];
                match *mode {
                    Mode::Normal => if row.len() > 0 {
                        let row2 = row.remove(cx);
                        &&& final(e_rows).raws() =~= old(e_rows).raws().update(cy, row2)
                        &&& final(self).c_ctrl == (CursorController {
                            cx: (if cx <= col_bound(row2, Mode::Normal) {
                                cx
                            } else {
                                col_bound(row2, Mode::Normal)
                            }) as usize,
                            ..old(self).c_ctrl
                        })
                        &&& final(self).dirty == bump(old(self).dirty)
                    } else {
                        &&& *final(e_rows) == *old(e_rows)
                        &&& final(self).c_ctrl == old(self).c_ctrl
                        &&& final(self).dirty == old(self).dirty
                    },
                    Mode::Insert => if cx > 0 {
                        &&& final(e_rows).raws() =~= old(e_rows).raws().update(
                            cy,
                            row.remove(cx - 1),
                        )
                        &&& final(self).c_ctrl == (CursorController {
                            cx: (cx - 1) as usize,
                            ..old(self).c_ctrl
                        })
                        &&& final(self).dirty == bump(old(self).dirty)
                    } else if cy > 0 {
                        let prev = old(e_rows).raws()[cy - 1];
                        &&& final(e_rows).raws() =~= old(e_rows).raws().update(
                            cy - 1,
                            prev + row,
                        ).remove(cy)
                        &&& final(self).c_ctrl == (CursorController {
                            cx: prev.len() as usize,
                            cy: (cy - 1) as usize,
                            ..old(self).c_ctrl
                        })
                        &&& final(self).dirty == bump(old(self).dirty)
                    } else {
                        &&& *final(e_rows) == *old(e_rows)
                        &&& final(self).c_ctrl == old(self).c_ctrl
                        &&& final(self).dirty == old(self).dirty
                    },
                    Mode::Command => {
                        let cmdx = old(self).c_ctrl.cmdx as int;
                        &&& *final(e_rows) == *old(e_rows)
                        &&& final(self).dirty == old(self).dirty
                        &&& if old(self).cmd is Some && cmdx > 1 {
                            &&& final(self).cmd matches Some(c2) && c2@ == old(
                                self,
                            ).cmd->Some_0@.remove(cmdx - 2)
                            &&& final(self).c_ctrl == (CursorController {
                                cmdx: (cmdx - 1) as usize,
                                ..old(self).c_ctrl
                            })
                        } else {
                            &&& final(self).cmd == old(self).cmd
                            &&& final(self).c_ctrl == old(self).c_ctrl
                        }
                    },
                }
            }),
            old(e_rows).wf() ==> final(e_rows).wf(),
            final(e_rows).filename == old(e_rows).filename,
            final(self).stt_msg == old(self).stt_msg,
            final(self).cmd_msg == old(self).cmd_msg,
            !(*mode is Command) ==> final(self).cmd == old(self).cmd,
            *mode is Command && old(self).wf_cmd() ==> final(self).wf_cmd(),
    {
        match mode {
            Mode::Normal => {
                let len = e_rows.get_raw(self.c_ctrl.cy).len();
                if len > 0 {
                    let new_len: usize;
                    {
                        let row = e_rows.get_erow_mut(self.c_ctrl.cy);
                        row.delete_char(self.c_ctrl.cx);
                        new_len = row.raw.len();
                    }
                    let bound = if new_len == 0 {
                        0
                    } else {
                        new_len - 1
                    };
                    if self.c_ctrl.cx > bound {
                        self.c_ctrl.cx = bound;
                    }
                    if self.dirty < u64::MAX {
                        self.dirty = self.dirty + 1;
                    }
                    proof {
                        let cy = old(self).c_ctrl.cy as int;
                        let cx = old(self).c_ctrl.cx as int;
                        let row2 = old(e_rows).raws()[cy].remove(cx);
                        assert(final(e_rows).raws() =~= old(e_rows).raws().update(cy, row2));
                    }
                }
            },
            Mode::Insert => {
                if self.c_ctrl.cx > 0 {
                    {
                        let row = e_rows.get_erow_mut(self.c_ctrl.cy);
                        row.delete_char(self.c_ctrl.cx - 1);
                    }
                    self.c_ctrl.cx = self.c_ctrl.cx - 1;
                    if self.dirty < u64::MAX {
                        self.dirty = self.dirty + 1;
                    }
                    proof {
                        let cy = old(self).c_ctrl.cy as int;
                        let cx = old(self).c_ctrl.cx as int;
                        assert(final(e_rows).raws() =~= old(e_rows).raws().update(
                            cy,
                            old(e_rows).raws()[cy].remove(cx - 1),
                        ));
                    }
                } else if self.c_ctrl.cy > 0 {
                    let prev_len = e_rows.get_raw(self.c_ctrl.cy - 1).len();
                    self.c_ctrl.cx = prev_len;
                    e_rows.join_adj_erows(self.c_ctrl.cy);
                    self.c_ctrl.cy = self.c_ctrl.cy - 1;
                    if self.dirty < u64::MAX {
                        self.dirty = self.dirty + 1;
                    }
                }
            },
            Mode::Command => {
                if self.cmd.is_some() && self.c_ctrl.cmdx > 1 {
                    let at = self.c_ctrl.cmdx - 2;
                    let mut v = match self.cmd.take() {
                        Some(v) => v,
                        None => Vec::new(),
                    };
                    v.remove(at);
                    self.cmd = Some(v);
                    self.c_ctrl.cmdx = self.c_ctrl.cmdx - 1;
                }
            },
        }
    }

    /// Jump the cursor to row `y`, re-clamping the column to the new row's
    /// mode-dependent bound.
    pub fn goto_y(&mut self, y: usize, e_rows: &EditorRows, mode: &Mode)
        requires
            y < e_rows.raws().len(),
        ensures
            final(self).c_ctrl == (CursorController {
                cy: y,
                cx: (if old(self).c_ctrl.cx <= col_bound(e_rows.raws()[y as int], *mode) {
                    old(self).c_ctrl.cx as int
                } else {
                    col_bound(e_rows.raws()[y as int], *mode)
                }) as usize,
                ..old(self).c_ctrl
            }),
            final(self).stt_msg == old(self).stt_msg,
            final(self).cmd_msg == old(self).cmd_msg,
            final(self).cmd == old(self).cmd,
            final(self).dirty == old(self).dirty,
    {
        self.c_ctrl.cy = y;
        let len = e_rows.get_raw(y).len();
        let bound = match mode {
            Mode::Normal => if len == 0 {
                0
            } else {
                len - 1
            },
            _ => len,
        };
        if self.c_ctrl.cx > bound {
            self.c_ctrl.cx = bound;
        }
    }

    /// Move the cursor one step: the buffer cursor outside Command mode,
    /// the command-line cursor in it.
    pub fn move_cursor(&mut self, dir: Direction, e_rows: &EditorRows, mode: &Mode)
        requires
            !(*mode is Command) ==> old(self).c_ctrl.cy < e_rows.raws().len(),
            *mode is Command ==> old(self).wf_cmd(),
        ensures
            !(*mode is Command) ==> {
                &&& (final(self).c_ctrl.cx as int, final(self).c_ctrl.cy as int) == mv_cursor(
                    old(self).c_ctrl.cx as int,
                    old(self).c_ctrl.cy as int,
                    dir,
                    e_rows.raws(),
                    *mode,
                )
                &&& final(self).c_ctrl.cy < e_rows.raws().len()
                &&& final(self).c_ctrl.cx <= col_bound(
                    e_rows.raws()[final(self).c_ctrl.cy as int],
                    *mode,
                )
                &&& final(self).c_ctrl.cmdx == old(self).c_ctrl.cmdx
            },
            *mode is Command ==> {
                &&& final(self).c_ctrl == (CursorController {
                    cmdx: cmd_cursor(
                        old(self).c_ctrl.cmdx as int,
                        dir,
                        old(self).cmd_len(),
                    ) as usize,
                    ..old(self).c_ctrl
                })
                &&& final(self).wf_cmd()
            },
            final(self).c_ctrl.rx == old(self).c_ctrl.rx,
            final(self).c_ctrl.screen_size == old(self).c_ctrl.screen_size,
            final(self).c_ctrl.y_offset == old(self).c_ctrl.y_offset,
            final(self).c_ctrl.x_offset == old(self).c_ctrl.x_offset,
            final(self).stt_msg == old(self).stt_msg,
            final(self).cmd_msg == old(self).cmd_msg,
            final(self).cmd == old(self).cmd,
            final(self).dirty == old(self).dirty,
    {
        match mode {
            Mode::Command => {
                let len = match self.cmd.as_ref() {
                    Some(c) => c.len(),
                    None => 0,
                };
                self.c_ctrl.cmd_move(dir, len);
            },
            _ => {
                self.c_ctrl.mv(dir, e_rows, mode);
            },
        }
    }

    /// Put the command-line cursor back at column 1.
    pub fn reset_cmd_cursor(&mut self)
        ensures
            final(self).c_ctrl == (CursorController { cmdx: 1, ..old(self).c_ctrl }),
            final(self).stt_msg == old(self).stt_msg,
            final(self).cmd_msg == old(self).cmd_msg,
            final(self).cmd == old(self).cmd,
            final(self).dirty == old(self).dirty,
    {
        self.c_ctrl.cmdx = 1;
    }

    /// Set the status message.
    pub fn set_stt_msg(&mut self, msg: &str, level: MessageLevel)
        ensures
            final(self).stt_msg matches Some(m) && m.content@ == msg@ && m.level == level,
            final(self).cmd_msg == old(self).cmd_msg,
            final(self).cmd == old(self).cmd,
            final(self).c_ctrl == old(self).c_ctrl,
            final(self).dirty == old(self).dirty,
    {
        self.stt_msg = Some(StatusMessage::new(msg, level));
    }

    /// Set the command result message.
    pub fn set_cmd_msg(&mut self, msg: &str, level: MessageLevel)
        ensures
            final(self).cmd_msg matches Some(m) && m.content@ == msg@ && m.level == level,
            final(self).stt_msg == old(self).stt_msg,
            final(self).cmd == old(self).cmd,
            final(self).c_ctrl == old(self).c_ctrl,
            final(self).dirty == old(self).dirty,
    {
        self.cmd_msg = Some(StatusMessage::new(msg, level));
    }

    /// Set the command result message from already collected characters.
    pub fn set_cmd_msg_chars(&mut self, msg: Vec<char>, level: MessageLevel)
        ensures
            final(self).cmd_msg matches Some(m) && m.content@ == msg@ && m.level == level,
            final(self).stt_msg == old(self).stt_msg,
            final(self).cmd == old(self).cmd,
            final(self).c_ctrl == old(self).c_ctrl,
            final(self).dirty == old(self).dirty,
    {
        self.cmd_msg = Some(StatusMessage { content: msg, level });
    }

    /// Set the status message from already collected characters.
    pub fn set_stt_msg_chars(&mut self, msg: Vec<char>, level: MessageLevel)
        ensures
            final(self).stt_msg matches Some(m) && m.content@ == msg@ && m.level == level,
            final(self).cmd_msg == old(self).cmd_msg,
            final(self).cmd == old(self).cmd,
            final(self).c_ctrl == old(self).c_ctrl,
            final(self).dirty == old(self).dirty,
    {
        self.stt_msg = Some(StatusMessage { content: msg, level });
    }

    /// Clear the status message.
    pub fn clear_stt_msg(&mut self)
        ensures
            final(self).stt_msg is None,
            final(self).cmd_msg == old(self).cmd_msg,
            final(self).cmd == old(self).cmd,
            final(self).c_ctrl == old(self).c_ctrl,
            final(self).dirty == old(self).dirty,
    {
        self.stt_msg = None;
    }

    /// Clear the command result message.
    pub fn clear_cmd_msg(&mut self)
        ensures
            final(self).cmd_msg is None,
            final(self).stt_msg == old(self).stt_msg,
            final(self).cmd == old(self).cmd,
            final(self).c_ctrl == old(self).c_ctrl,
            final(self).dirty == old(self).dirty,
    {
        self.cmd_msg = None;
    }

    /// Append `c` to the pending command string and advance the command
    /// cursor.
    pub fn push_cmd(&mut self, c: char)
        requires
            old(self).wf_cmd(),
            old(self).cmd_len() + 1 < usize::MAX,
        ensures
            final(self).cmd matches Some(v) && v@ == (match old(self).cmd {
                Some(o) => o@,
                None => Seq::<char>::empty(),
            }).push(c),
            final(self).c_ctrl == (CursorController {
                cmdx: (old(self).c_ctrl.cmdx + 1) as usize,
                ..old(self).c_ctrl
            }),
            final(self).wf_cmd(),
            final(self).stt_msg == old(self).stt_msg,
            final(self).cmd_msg == old(self).cmd_msg,
            final(self).dirty == old(self).dirty,
    {
        let mut v = match self.cmd.take() {
            Some(v) => v,
            None => Vec::new(),
        };
        v.push(c);
        self.cmd = Some(v);
        self.c_ctrl.cmdx = self.c_ctrl.cmdx + 1;
    }

    /// The pending command string, if one is being composed.
    pub fn get_cmd(&self) -> (cmd: Option<&Vec<char>>)
        ensures
            match cmd {
                Some(c) => self.cmd matches Some(o) && o == *c,
                None => self.cmd is None,
            },
    {
        self.cmd.as_ref()
    }

    /// Drop the pending command string.
    pub fn clear_cmd(&mut self)
        ensures
            final(self).cmd is None,
            final(self).stt_msg == old(self).stt_msg,
            final(self).cmd_msg == old(self).cmd_msg,
            final(self).c_ctrl == old(self).c_ctrl,
            final(self).dirty == old(self).dirty,
    {
        self.cmd = None;
    }
}

} // verus!
