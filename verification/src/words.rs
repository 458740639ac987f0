//! Line-edge and vim-style word motions.  A word is a maximal run of
//! characters of one class ([`CharClass`]); the motions walk runs and the
//! whitespace between them with small scanners whose behaviour is pinned
//! down by the spec functions here.

use vstd::prelude::*;

use crate::buffer::EditorRows;
use crate::cursor::{col_bound, CursorController, Mode};
use crate::out::Output;
use crate::text::{char_class, class_of, CharClass};

verus! {

/// The first position at or after `pos` (bounded by `end`) whose character
/// leaves class `cls`.
pub open spec fn scan_fwd(row: Seq<char>, pos: int, end: int, cls: CharClass) -> int
    decreases end - pos,
{
    if pos < end && 0 <= pos < row.len() && char_class(row[pos]) == cls {
        scan_fwd(row, pos + 1, end, cls)
    } else {
        pos
    }
}

/// The first position at or before `pos` whose character leaves class
/// `cls`, stopping at 0.
pub open spec fn scan_back(row: Seq<char>, pos: int, cls: CharClass) -> int
    decreases pos,
{
    if pos > 0 && 0 <= pos < row.len() && char_class(row[pos]) == cls {
        scan_back(row, pos - 1, cls)
    } else {
        pos
    }
}

/// A forward scan stays between its start and its end.
pub proof fn lemma_scan_fwd_bounds(row: Seq<char>, pos: int, end: int, cls: CharClass)
    requires
        pos <= end,
    ensures
        pos <= scan_fwd(row, pos, end, cls) <= end,
    decreases end - pos,
{
    if pos < end && 0 <= pos < row.len() && char_class(row[pos]) == cls {
        lemma_scan_fwd_bounds(row, pos + 1, end, cls);
    }
}

/// The column of the first non-whitespace character of `row`, or 0 when
/// the row is empty or all whitespace.
pub open spec fn start_col(row: Seq<char>) -> int {
    let p = scan_fwd(row, 0, row.len() as int, CharClass::Space);
    if p == row.len() {
        0
    } else {
        p
    }
}

/// The column the cursor rests on after a move to the line end: the last
/// character in Normal mode, the one-past-end position in Insert mode.
pub open spec fn end_col(row: Seq<char>, mode: Mode) -> int {
    if mode is Insert {
        row.len() as int
    } else {
        col_bound(row, Mode::Normal)
    }
}

/// The cursor state after a move to the line end.
pub open spec fn goto_end_cursor(c: CursorController, row: Seq<char>, mode: Mode) -> CursorController {
    CursorController { cx: end_col(row, mode) as usize, ..c }
}

/// Moving to the line end is idempotent: the target column depends only on
/// the line and the mode, never on where the cursor stood, so a second
/// motion lands exactly where the first one did.
pub proof fn lemma_goto_end_idempotent(c: CursorController, row: Seq<char>, mode: Mode)
    ensures
        goto_end_cursor(goto_end_cursor(c, row, mode), row, mode) == goto_end_cursor(c, row, mode),
{
}

/// The column a forward word motion lands on within `row`, from `cx`
/// strictly left of the last column: `w` (`to_end` false) passes the run
/// under the cursor and the whitespace after it, landing on the next run's
/// first character; `e` (`to_end` true) passes whitespace, then the run,
/// then steps back over the whitespace it overshot, landing on a run's
/// last character.  Scans stop at the last column.
pub open spec fn next_word_col(row: Seq<char>, cx: int, to_end: bool) -> int {
    let last = col_bound(row, Mode::Normal);
    if !to_end {
        let p1 = if char_class(row[cx]) != CharClass::Space {
            scan_fwd(row, cx, last, char_class(row[cx]))
        } else {
            cx
        };
        scan_fwd(row, p1, last, CharClass::Space)
    } else {
        let p1 = scan_fwd(row, cx, last, CharClass::Space);
        let p2 = scan_fwd(row, p1, last, char_class(row[p1]));
        scan_back(row, p2, CharClass::Space)
    }
}

/// The column a backward word motion lands on within `row`, from `cx > 0`:
/// it walks back past the run under the cursor and the whitespace before
/// it (`b`), and with `to_start` continues past the previous run to its
/// first character (`ge`-style), correcting a one-column overshoot onto
/// whitespace.
pub open spec fn prev_word_col(row: Seq<char>, cx: int, to_start: bool) -> int {
    let p1 = scan_back(row, cx, char_class(row[cx]));
    let p2 = scan_back(row, p1, CharClass::Space);
    if to_start {
        let p3 = if char_class(row[p2]) != CharClass::Space {
            scan_back(row, p2, char_class(row[p2]))
        } else {
            p2
        };
        if p3 > 0 && char_class(row[p3]) == CharClass::Space {
            p3 + 1
        } else {
            p3
        }
    } else {
        p2
    }
}

impl Output {
    /// Move the cursor to the first non-whitespace character of the
    /// current line (or column 0 of a blank line).
    pub fn goto_start_line(&mut self, e_rows: &EditorRows)
        requires
            old(self).c_ctrl.cy < e_rows.raws().len(),
        ensures
            final(self).c_ctrl.cx == start_col(e_rows.raws()[old(self).c_ctrl.cy as int]),
            final(self).c_ctrl == (CursorController {
                cx: final(self).c_ctrl.cx,
                ..old(self).c_ctrl
            }),
            final(self).c_ctrl.cx <= col_bound(
                e_rows.raws()[final(self).c_ctrl.cy as int],
                Mode::Normal,
            ),
            final(self).stt_msg == old(self).stt_msg,
            final(self).cmd_msg == old(self).cmd_msg,
            final(self).cmd == old(self).cmd,
            final(self).dirty == old(self).dirty,
    {
        let row = e_rows.get_raw(self.c_ctrl.cy);
        let len = row.len();
        let ghost rs = e_rows.raws()[old(self).c_ctrl.cy as int];
        let mut pos: usize = 0;
        while pos < len && class_of(row[pos]) == CharClass::Space
            invariant
                0 <= pos <= len,
                len == rs.len(),
                row@ == rs,
                scan_fwd(rs, 0, len as int, CharClass::Space) == scan_fwd(
                    rs,
                    pos as int,
                    len as int,
                    CharClass::Space,
                ),
            decreases len - pos,
        {
            pos = pos + 1;
        }
        if pos == len {
            pos = 0;
        }
        self.c_ctrl.cx = pos;
        proof {
            lemma_scan_fwd_bounds(rs, 0, len as int, CharClass::Space);
        }
    }

    /// Move the cursor to the line end: the last character in Normal mode,
    /// one past it in Insert mode.
    pub fn goto_end_line(&mut self, e_rows: &EditorRows, mode: &Mode)
        requires
            old(self).c_ctrl.cy < e_rows.raws().len(),
        ensures
            final(self).c_ctrl == goto_end_cursor(
                old(self).c_ctrl,
                e_rows.raws()[old(self).c_ctrl.cy as int],
                *mode,
            ),
            final(self).stt_msg == old(self).stt_msg,
            final(self).cmd_msg == old(self).cmd_msg,
            final(self).cmd == old(self).cmd,
            final(self).dirty == old(self).dirty,
    {
        let len = e_rows.get_raw(self.c_ctrl.cy).len();
        self.c_ctrl.cx = match mode {
            Mode::Insert => len,
            _ => if len == 0 {
                0
            } else {
                len - 1
            },
        };
    }

    /// Move forward one word: to the next run's first character (`w`) or
    /// the next run's last character (`e`).  From the last column of a line
    /// the cursor wraps to the start of the next line; on the last line it
    /// stays put.
    pub fn next_word(&mut self, e_rows: &EditorRows, to_end: bool)
        requires
            old(self).c_ctrl.cy < e_rows.raws().len(),
            old(self).c_ctrl.cx <= col_bound(
                e_rows.raws()[old(self).c_ctrl.cy as int],
                Mode::Normal,
            ),
        ensures
            ({
                let cy = old(self).c_ctrl.cy as int;
                let cx = old(self).c_ctrl.cx as int;
                let row = e_rows.raws()[cy];
                if cx == col_bound(row, Mode::Normal) {
                    if cy + 1 < e_rows.raws().len() {
                        final(self).c_ctrl.cx == 0 && final(self).c_ctrl.cy == cy + 1
                    } else {
                        final(self).c_ctrl == old(self).c_ctrl
                    }
                } else {
                    final(self).c_ctrl.cx == next_word_col(row, cx, to_end) && final(self).c_ctrl.cy == cy
                }
            }),
            final(self).c_ctrl == (CursorController {
                cx: final(self).c_ctrl.cx,
                cy: final(self).c_ctrl.cy,
                ..old(self).c_ctrl
            }),
            final(self).c_ctrl.cy < e_rows.raws().len(),
            final(self).c_ctrl.cx <= col_bound(
                e_rows.raws()[final(self).c_ctrl.cy as int],
                Mode::Normal,
            ),
            final(self).stt_msg == old(self).stt_msg,
            final(self).cmd_msg == old(self).cmd_msg,
            final(self).cmd == old(self).cmd,
            final(self).dirty == old(self).dirty,
    {
        let row = e_rows.get_raw(self.c_ctrl.cy);
        let len = row.len();
        let last: usize = if len == 0 {
            0
        } else {
            len - 1
        };
        let ghost rs = e_rows.raws()[old(self).c_ctrl.cy as int];
        let n = e_rows.num_rows();
        if self.c_ctrl.cx == last {
            if self.c_ctrl.cy + 1 < n {
                self.c_ctrl.cy = self.c_ctrl.cy + 1;
                self.c_ctrl.cx = 0;
            }
        } else {
            let mut pos = self.c_ctrl.cx;
            if !to_end {
                let cls = class_of(row[pos]);
                if !(matches!(cls, CharClass::Space)) {
                    while pos < last && class_of(row[pos]) == cls
                        invariant
                            0 <= pos <= last < len == rs.len(),
                            row@ == rs,
                            scan_fwd(rs, old(self).c_ctrl.cx as int, last as int, cls) == scan_fwd(
                                rs,
                                pos as int,
                                last as int,
                                cls,
                            ),
                        decreases last - pos,
                    {
                        pos = pos + 1;
                    }
                }
                let ghost p1 = pos as int;
                while pos < last && class_of(row[pos]) == CharClass::Space
                    invariant
                        0 <= pos <= last < len == rs.len(),
                        row@ == rs,
                        scan_fwd(rs, p1, last as int, CharClass::Space) == scan_fwd(
                            rs,
                            pos as int,
                            last as int,
                            CharClass::Space,
                        ),
                    decreases last - pos,
                {
                    pos = pos + 1;
                }
            } else {
                while pos < last && class_of(row[pos]) == CharClass::Space
                    invariant
                        0 <= pos <= last < len == rs.len(),
                        row@ == rs,
                        scan_fwd(rs, old(self).c_ctrl.cx as int, last as int, CharClass::Space)
                            == scan_fwd(rs, pos as int, last as int, CharClass::Space),
                    decreases last - pos,
                {
                    pos = pos + 1;
                }
                let cls = class_of(row[pos]);
                let ghost p1 = pos as int;
                while pos < last && class_of(row[pos]) == cls
                    invariant
                        0 <= pos <= last < len == rs.len(),
                        row@ == rs,
                        cls == char_class(rs[p1]),
                        scan_fwd(rs, p1, last as int, cls) == scan_fwd(
                            rs,
                            pos as int,
                            last as int,
                            cls,
                        ),
                    decreases last - pos,
                {
                    pos = pos + 1;
                }
                let ghost p2 = pos as int;
                while pos > 0 && class_of(row[pos]) == CharClass::Space
                    invariant
                        0 <= pos <= p2 <= last < len == rs.len(),
                        row@ == rs,
                        scan_back(rs, p2, CharClass::Space) == scan_back(
                            rs,
                            pos as int,
                            CharClass::Space,
                        ),
                    decreases pos,
                {
                    pos = pos - 1;
                }
            }
            self.c_ctrl.cx = pos;
        }
    }

    /// Move backward one word: past the run under the cursor and the
    /// whitespace before it, and with `to_start` on to the first character
    /// of the previous run.  From column 0 the cursor wraps to the last
    /// column of the previous line; on the first line it stays put.
    pub fn prev_word(&mut self, e_rows: &EditorRows, to_start: bool)
        requires
            old(self).c_ctrl.cy < e_rows.raws().len(),
            old(self).c_ctrl.cx <= col_bound(
                e_rows.raws()[old(self).c_ctrl.cy as int],
                Mode::Normal,
            ),
        ensures
            ({
                let cy = old(self).c_ctrl.cy as int;
                let cx = old(self).c_ctrl.cx as int;
                let row = e_rows.raws()[cy];
                if cx == 0 {
                    if cy > 0 {
                        final(self).c_ctrl.cx == col_bound(e_rows.raws()[cy - 1], Mode::Normal)
                            && final(self).c_ctrl.cy == cy - 1
                    } else {
                        final(self).c_ctrl == old(self).c_ctrl
                    }
                } else {
                    final(self).c_ctrl.cx == prev_word_col(row, cx, to_start) && final(self).c_ctrl.cy == cy
                }
            }),
            final(self).c_ctrl == (CursorController {
                cx: final(self).c_ctrl.cx,
                cy: final(self).c_ctrl.cy,
                ..old(self).c_ctrl
            }),
            final(self).c_ctrl.cy < e_rows.raws().len(),
            final(self).c_ctrl.cx <= col_bound(
                e_rows.raws()[final(self).c_ctrl.cy as int],
                Mode::Normal,
            ),
            final(self).stt_msg == old(self).stt_msg,
            final(self).cmd_msg == old(self).cmd_msg,
            final(self).cmd == old(self).cmd,
            final(self).dirty == old(self).dirty,
    {
        if self.c_ctrl.cx == 0 {
            if self.c_ctrl.cy > 0 {
                self.c_ctrl.cy = self.c_ctrl.cy - 1;
                let plen = e_rows.get_raw(self.c_ctrl.cy).len();
                self.c_ctrl.cx = if plen == 0 {
                    0
                } else {
                    plen - 1
                };
            }
        } else {
            let row = e_rows.get_raw(self.c_ctrl.cy);
            let len = row.len();
            let ghost rs = e_rows.raws()[old(self).c_ctrl.cy as int];
            let mut pos = self.c_ctrl.cx;
            let cls = class_of(row[pos]);
            while pos > 0 && class_of(row[pos]) == cls
                invariant
                    0 <= pos <= old(self).c_ctrl.cx < len == rs.len(),
                    row@ == rs,
                    scan_back(rs, old(self).c_ctrl.cx as int, cls) == scan_back(rs, pos as int, cls),
                decreases pos,
            {
                pos = pos - 1;
            }
            let ghost p1 = pos as int;
            while pos > 0 && class_of(row[pos]) == CharClass::Space
                invariant
                    0 <= pos <= p1 < len == rs.len(),
                    row@ == rs,
                    scan_back(rs, p1, CharClass::Space) == scan_back(
                        rs,
                        pos as int,
                        CharClass::Space,
                    ),
                decreases pos,
            {
                pos = pos - 1;
            }
            if to_start {
                let cls2 = class_of(row[pos]);
                let ghost p2 = pos as int;
                if !(matches!(cls2, CharClass::Space)) {
                    while pos > 0 && class_of(row[pos]) == cls2
                        invariant
                            0 <= pos <= p2 < len == rs.len(),
                            row@ == rs,
                            scan_back(rs, p2, cls2) == scan_back(rs, pos as int, cls2),
                        decreases pos,
                    {
                        pos = pos - 1;
                    }
                }
                if pos > 0 && class_of(row[pos]) == CharClass::Space {
                    pos = pos + 1;
                }
            }
            self.c_ctrl.cx = pos;
        }
    }
}

} // verus!
