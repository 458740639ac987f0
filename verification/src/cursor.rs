//! The viewport/cursor controller: buffer-space cursor position, its
//! render-space projection, the command-line cursor, and the scroll offsets
//! that keep the cursor inside the visible rectangle.

use vstd::prelude::*;

use crate::buffer::{EditorRows, ERow};
use crate::text::render_line;
use crate::TAB_SZ;

verus! {

/// The interaction mode the editor is in; exactly one is active at a time.
#[derive(Clone, Copy, PartialEq, Eq, Structural, Debug)]
pub enum Mode {
    /// Navigation and single-key edits.
    Normal,
    /// Text entry at the cursor.
    Insert,
    /// Composing a `:` command line.
    Command,
}

/// A cursor motion request.
#[derive(Clone, Copy, PartialEq, Eq, Structural, Debug)]
pub enum Direction {
    Up,
    Down,
    Left,
    Right,
}

/// The largest column the cursor may rest on in `row` under `mode`: Normal
/// mode excludes the one-past-end position (the cursor must rest on a
/// character), Insert and Command modes allow it.
pub open spec fn col_bound(row: Seq<char>, mode: Mode) -> int {
    if mode is Normal {
        if row.len() == 0 {
            0
        } else {
            row.len() - 1
        }
    } else {
        row.len() as int
    }
}

/// One rightward step in `row`: advance one column within the bound, and
/// one further column when that lands on a tab, so the cursor stays aligned
/// to a rendered glyph; at the bound, stay.
pub open spec fn step_right(cx: int, row: Seq<char>, mode: Mode) -> int {
    if cx < col_bound(row, mode) {
        if cx + 1 < row.len() && row[cx + 1] == '\t' {
            cx + 2
        } else {
            cx + 1
        }
    } else {
        cx
    }
}

/// The cursor position after moving from `(cx, cy)` in `dir`: vertical
/// motion saturates at the buffer edges, horizontal motion at the
/// mode-dependent line bound, and after any motion the column is re-clamped
/// to the destination line.
pub open spec fn mv_cursor(cx: int, cy: int, dir: Direction, raws: Seq<Seq<char>>, mode: Mode) -> (
    int,
    int,
) {
    let moved: (int, int) = match dir {
        Direction::Up => (cx, if cy == 0 { 0 } else { cy - 1 }),
        Direction::Down => (cx, if cy + 1 < raws.len() { cy + 1 } else { cy }),
        Direction::Left => (if cx == 0 { 0 } else { cx - 1 }, cy),
        Direction::Right => (step_right(cx, raws[cy], mode), cy),
    };
    let b = col_bound(raws[moved.1], mode);
    (if moved.0 <= b { moved.0 } else { b }, moved.1)
}

/// The command-line cursor after moving in `dir` over a command of length
/// `len`: it stays within `[1, len + 1]` (column 0 shows the `:` prompt)
/// and ignores vertical requests.
pub open spec fn cmd_cursor(cmdx: int, dir: Direction, len: int) -> int {
    match dir {
        Direction::Left => if cmdx > 1 {
            cmdx - 1
        } else {
            1
        },
        Direction::Right => if cmdx < len + 1 {
            cmdx + 1
        } else {
            cmdx
        },
        _ => cmdx,
    }
}

/// Every single motion keeps the cursor inside the buffer: from any
/// position with the row inside the buffer and the column non-negative,
/// the row stays within `[0, line count - 1]` and the column within the
/// mode-dependent bound of its new line.  Since this holds of each step
/// from each such position, it holds of every sequence of motions.
pub proof fn lemma_motion_stays_in_bounds(
    cx: int,
    cy: int,
    dir: Direction,
    raws: Seq<Seq<char>>,
    mode: Mode,
)
    requires
        raws.len() >= 1,
        0 <= cy < raws.len(),
        0 <= cx,
    ensures
        ({
            let m = mv_cursor(cx, cy, dir, raws, mode);
            &&& 0 <= m.1 < raws.len()
            &&& 0 <= m.0 <= col_bound(raws[m.1], mode)
        }),
{
}

/// The minimal adjustment of a scroll offset `off` so that position `pos`
/// lies within a window of `size` cells starting at the offset.
pub open spec fn clamp_offset(off: int, pos: int, size: int) -> int {
    let o = if off <= pos {
        off
    } else {
        pos
    };
    if pos >= o + size {
        pos - size + 1
    } else {
        o
    }
}

/// Cursor and scroll state: buffer-space column `cx` and row `cy`, the
/// derived render-space column `rx`, the command-line column `cmdx`, the
/// screen size as (columns, text rows), and the two scroll offsets.
pub struct CursorController {
    /// Buffer-space column.
    pub cx: usize,
    /// Buffer-space row.
    pub cy: usize,
    /// Render-space column, recomputed by [`CursorController::scroll`].
    pub rx: usize,
    /// Command-line column, in `[1, command length + 1]`.
    pub cmdx: usize,
    /// Screen size: (columns, rows reserved for text).
    pub screen_size: (usize, usize),
    /// First visible buffer row.
    pub y_offset: usize,
    /// First visible render column.
    pub x_offset: usize,
}

impl CursorController {
    /// The initial controller: cursor at the origin, command column 1, no
    /// scrolling.
    pub fn new(screen_size: (usize, usize)) -> (c: CursorController)
        ensures
            c == (CursorController {
                cx: 0,
                cy: 0,
                rx: 0,
                cmdx: 1,
                screen_size,
                y_offset: 0,
                x_offset: 0,
            }),
    {
        CursorController { cx: 0, cy: 0, rx: 0, cmdx: 1, screen_size, y_offset: 0, x_offset: 0 }
    }

    /// Move the buffer cursor one step in `dir`, saturating at the buffer
    /// edges and re-clamping the column to the destination line's
    /// mode-dependent bound.
    pub fn mv(&mut self, dir: Direction, e_rows: &EditorRows, mode: &Mode)
        requires
            !(*mode is Command),
            old(self).cy < e_rows.raws().len(),
        ensures
            (final(self).cx as int, final(self).cy as int) == mv_cursor(
                old(self).cx as int,
                old(self).cy as int,
                dir,
                e_rows.raws(),
                *mode,
            ),
            final(self).cy < e_rows.raws().len(),
            final(self).cx <= col_bound(e_rows.raws()[final(self).cy as int], *mode),
            final(self).rx == old(self).rx,
            final(self).cmdx == old(self).cmdx,
            final(self).screen_size == old(self).screen_size,
            final(self).y_offset == old(self).y_offset,
            final(self).x_offset == old(self).x_offset,
    {
        let n_rows = e_rows.num_rows();
        match dir {
            Direction::Up => {
                if self.cy > 0 {
                    self.cy = self.cy - 1;
                }
            },
            Direction::Down => {
                if self.cy + 1 < n_rows {
                    self.cy = self.cy + 1;
                }
            },
            Direction::Left => {
                if self.cx > 0 {
                    self.cx = self.cx - 1;
                }
            },
            Direction::Right => {
                let row = e_rows.get_raw(self.cy);
                let len = row.len();
                let bound = match mode {
                    Mode::Normal => if len == 0 {
                        0
                    } else {
                        len - 1
                    },
                    _ => len,
                };
                if self.cx < bound {
                    self.cx = self.cx + 1;
                    if self.cx < len && row[self.cx] == '\t' {
                        self.cx = self.cx + 1;
                    }
                }
            },
        }
        let new_row_len = e_rows.get_raw(self.cy).len();
        let new_bound = match mode {
            Mode::Normal => if new_row_len == 0 {
                0
            } else {
                new_row_len - 1
            },
            _ => new_row_len,
        };
        if self.cx > new_bound {
            self.cx = new_bound;
        }
    }

    /// Move the command-line cursor one step in `dir` over a command of
    /// length `cmd_len`.
    pub fn cmd_move(&mut self, dir: Direction, cmd_len: usize)
        requires
            1 <= old(self).cmdx,
            cmd_len < usize::MAX,
        ensures
            final(self).cmdx == cmd_cursor(old(self).cmdx as int, dir, cmd_len as int),
            old(self).cmdx <= cmd_len + 1 ==> 1 <= final(self).cmdx <= cmd_len + 1,
            final(self).cx == old(self).cx,
            final(self).cy == old(self).cy,
            final(self).rx == old(self).rx,
            final(self).screen_size == old(self).screen_size,
            final(self).y_offset == old(self).y_offset,
            final(self).x_offset == old(self).x_offset,
    {
        match dir {
            Direction::Left => {
                if self.cmdx > 1 {
                    self.cmdx = self.cmdx - 1;
                }
            },
            Direction::Right => {
                if self.cmdx < cmd_len + 1 {
                    self.cmdx = self.cmdx + 1;
                }
            },
            _ => {},
        }
    }

    /// The render-space column of the buffer cursor in `row`: the rendered
    /// length of the raw text left of the cursor.
    pub fn get_rx(&self, row: &ERow) -> (rx: usize)
        requires
            row.wf(),
            self.cx <= row.raw@.len(),
        ensures
            rx == render_line(row.raw@.take(self.cx as int)).len(),
    {
        let cap = row.render.len();
        let mut rx: usize = 0;
        let mut j: usize = 0;
        while j < self.cx
            invariant
                0 <= j <= self.cx,
                self.cx <= row.raw@.len(),
                row.wf(),
                cap == render_line(row.raw@).len(),
                rx == render_line(row.raw@.take(j as int)).len(),
                rx <= cap,
            decreases self.cx - j,
        {
            let c = row.raw[j];
            let ghost rx0 = rx as int;
            proof {
                assert(row.raw@.take(j + 1) =~= row.raw@.take(j as int).push(c));
                crate::text::lemma_render_snoc(row.raw@.take(j as int), c);
                crate::text::lemma_render_prefix(row.raw@, j + 1);
                if c == '\t' {
                    crate::text::lemma_tab_stop(rx0);
                    vstd::arithmetic::div_mod::lemma_fundamental_div_mod(rx0, TAB_SZ as int);
                    assert(render_line(row.raw@.take(j + 1)).len() == crate::text::tab_stop(rx0));
                }
            }
            if c == '\t' {
                let r = rx % TAB_SZ;
                rx = rx - r + TAB_SZ;
            } else {
                rx = rx + 1;
            }
            j = j + 1;
        }
        rx
    }

    /// Recompute the render column from the buffer column (snapping a
    /// cursor at column 0 of a tab-led line to column 1, where the first
    /// rendered glyph lies) and pull both scroll offsets to the minimal
    /// window containing the cursor.
    pub fn scroll(&mut self, e_rows: &EditorRows)
        requires
            e_rows.wf(),
            old(self).cy < e_rows.raws().len(),
            old(self).cx <= e_rows.raws()[old(self).cy as int].len(),
            old(self).screen_size.0 >= 1,
            old(self).screen_size.1 >= 1,
        ensures
            ({
                let row = e_rows.raws()[old(self).cy as int];
                &&& final(self).cx == if old(self).cx == 0 && row.len() > 0 && row[0] == '\t' {
                    1int
                } else {
                    old(self).cx as int
                }
                &&& final(self).rx == render_line(row.take(final(self).cx as int)).len()
                &&& final(self).y_offset == clamp_offset(
                    old(self).y_offset as int,
                    old(self).cy as int,
                    old(self).screen_size.1 as int,
                )
                &&& final(self).x_offset == clamp_offset(
                    old(self).x_offset as int,
                    final(self).rx as int,
                    old(self).screen_size.0 as int,
                )
                &&& final(self).y_offset <= final(self).cy < final(self).y_offset
                    + final(self).screen_size.1
                &&& final(self).x_offset <= final(self).rx < final(self).x_offset
                    + final(self).screen_size.0
            }),
            final(self).cy == old(self).cy,
            final(self).cmdx == old(self).cmdx,
            final(self).screen_size == old(self).screen_size,
    {
        let row = e_rows.get_raw(self.cy);
        if self.cx == 0 && row.len() > 0 && row[0] == '\t' {
            self.cx = 1;
        }
        let erow = &e_rows.get_erows()[self.cy];
        self.rx = self.get_rx(erow);

        if self.y_offset > self.cy {
            self.y_offset = self.cy;
        }
        if self.cy - self.y_offset >= self.screen_size.1 {
            self.y_offset = self.cy - self.screen_size.1 + 1;
        }

        if self.x_offset > self.rx {
            self.x_offset = self.rx;
        }
        if self.rx - self.x_offset >= self.screen_size.0 {
            self.x_offset = self.rx - self.screen_size.0 + 1;
        }
    }
}

} // verus!
