//! The renderer: a pure projection of buffer, cursor and message state
//! into one frame of draw instructions.  Scroll offsets are recomputed
//! first; after that nothing here mutates buffer or cursor state.

use vstd::prelude::*;

use crate::buffer::EditorRows;
use crate::cursor::Mode;
use crate::out::{MessageLevel, Output, StatusMessage};
use crate::text::{dec_str, push_dec_u64, push_dec_usize, push_str_chars, render_line, spaces, str_chars};

verus! {

/// One frame of draw instructions: the visible text rows, the status bar
/// (drawn reverse-video), the message/command row, and where the terminal
/// cursor goes.
pub struct Frame {
    /// The visible text rows, top to bottom.
    pub rows: Vec<Vec<char>>,
    /// The status bar text, exactly as wide as the screen allows.
    pub bar: Vec<char>,
    /// The message or command row.
    pub msg: Vec<char>,
    /// Whether the message row is danger-styled.
    pub msg_danger: bool,
    /// Whether the cursor sits on the command row.
    pub in_command: bool,
    /// Cursor column within the text area (render space minus scroll).
    pub cursor_x: usize,
    /// Cursor row within the text area.
    pub cursor_y: usize,
    /// Cursor column on the command row while a command is composed.
    pub cmd_cursor: usize,
}

/// The welcome banner text.
pub open spec fn banner_text() -> Seq<char> {
    "-- Sage Text Editor --"@
}

/// The banner row: the banner centred in `cols` columns behind a `~`
/// marker, truncated when the screen is narrower than the text.
pub open spec fn banner_row(cols: int) -> Seq<char> {
    let m = if banner_text().len() <= cols {
        banner_text()
    } else {
        banner_text().take(cols)
    };
    let padding = (cols - m.len()) / 2;
    if padding != 0 {
        seq!['~'] + spaces(padding - 1) + m
    } else {
        m
    }
}

/// The visible part of rendered line `rend`: at most `cols` characters
/// starting at scroll offset `x_off`.
pub open spec fn visible_slice(rend: Seq<char>, x_off: int, cols: int) -> Seq<char> {
    if rend.len() > x_off {
        let avail = rend.len() - x_off;
        let len = if avail <= cols {
            avail
        } else {
            cols
        };
        rend.subrange(x_off, x_off + len)
    } else {
        Seq::empty()
    }
}

/// Text row `i` of the frame: the visible slice of the buffer row it
/// shows, a `~` marker beyond the end of the buffer, or the welcome banner
/// on an untouched single-line buffer.
pub open spec fn frame_row(
    raws: Seq<Seq<char>>,
    y_off: int,
    x_off: int,
    cols: int,
    text_rows: int,
    i: int,
) -> Seq<char> {
    if i + y_off >= raws.len() {
        if raws.len() == 1 && i == text_rows / 3 && raws[0].len() == 0 {
            banner_row(cols)
        } else {
            seq!['~']
        }
    } else {
        visible_slice(render_line(raws[i + y_off]), x_off, cols)
    }
}

/// The name a buffer is shown under: the part of the path after the last
/// slash.
pub open spec fn base_name(s: Seq<char>) -> Seq<char>
    decreases s.len(),
{
    if s.len() == 0 {
        s
    } else if s.last() == '/' {
        Seq::empty()
    } else {
        base_name(s.drop_last()).push(s.last())
    }
}

/// The left block of the status bar: the quoted buffer name, a `*` marker
/// when there are unsaved changes, the line count, and the on-disk byte
/// size.
pub open spec fn info_left(
    filename: Option<Seq<char>>,
    dirty: u64,
    nlines: int,
    disk: int,
) -> Seq<char> {
    let name = match filename {
        Some(n) => base_name(n),
        None => "No name"@,
    };
    seq!['"'] + name + seq!['"'] + (if dirty > 0 {
        seq!['*']
    } else {
        Seq::<char>::empty()
    }) + seq![' '] + dec_str(nlines) + seq!['L', ',', ' '] + dec_str(disk) + seq!['B']
}

/// The right block of the status bar: screen row and column of the
/// cursor, its render column, the last index of the cursor row, and the
/// command-line column.
pub open spec fn info_right(c_y: int, c_x: int, rx: int, row_last: int, cmdx: int) -> Seq<char> {
    dec_str(c_y) + seq![':'] + dec_str(c_x) + seq!['/'] + dec_str(rx) + seq![' ', '('] + dec_str(
        row_last,
    ) + seq![')', ' '] + dec_str(cmdx)
}

/// The status bar: the left block, then spaces, then the right block
/// aligned to the right edge; the right block is dropped when it does not
/// fit, and the whole bar is cut to the screen width.
pub open spec fn bar_line(left: Seq<char>, right: Seq<char>, cols: int) -> Seq<char> {
    if left.len() >= cols {
        left.take(cols)
    } else {
        let space = cols - left.len();
        if right.len() <= space {
            left + spaces(space - right.len()) + right
        } else {
            left + spaces(space)
        }
    }
}

/// The message row and its danger styling: the latest command result
/// message wins over the status message, and the text is cut to the
/// screen width.
pub open spec fn message_row(
    cmd_msg: Option<StatusMessage>,
    stt_msg: Option<StatusMessage>,
    cols: int,
) -> (Seq<char>, bool) {
    let picked: Option<StatusMessage> = if cmd_msg is Some {
        cmd_msg
    } else {
        stt_msg
    };
    match picked {
        Some(m) => (
            if m.content@.len() <= cols {
                m.content@
            } else {
                m.content@.take(cols)
            },
            m.level is Danger,
        ),
        None => (Seq::empty(), false),
    }
}

/// The command row: a `:` prompt followed by the pending command.
pub open spec fn command_row(cmd: Option<Vec<char>>) -> Seq<char> {
    seq![':'] + match cmd {
        Some(c) => c@,
        None => Seq::empty(),
    }
}

/// Append the visible slice of `rend` to a fresh row.
fn push_visible(rend: &Vec<char>, x_off: usize, cols: usize) -> (out: Vec<char>)
    ensures
        out@ == visible_slice(rend@, x_off as int, cols as int),
{
    let mut out: Vec<char> = Vec::new();
    let rlen = rend.len();
    if rlen > x_off {
        let avail = rlen - x_off;
        let len = if avail <= cols {
            avail
        } else {
            cols
        };
        let mut j: usize = 0;
        assert(out@ =~= rend@.subrange(x_off as int, x_off as int));
        while j < len
            invariant
                0 <= j <= len,
                x_off + len <= rlen,
                rlen == rend@.len(),
                out@ == rend@.subrange(x_off as int, x_off + j),
            decreases len - j,
        {
            out.push(rend[x_off + j]);
            j = j + 1;
            assert(out@ =~= rend@.subrange(x_off as int, x_off + j));
        }
        assert(out@ =~= visible_slice(rend@, x_off as int, cols as int));
    } else {
        assert(out@ =~= visible_slice(rend@, x_off as int, cols as int));
    }
    out
}

/// Build the banner row for a screen `cols` wide.
fn make_banner(cols: usize) -> (out: Vec<char>)
    ensures
        out@ == banner_row(cols as int),
{
    let mut m = str_chars("-- Sage Text Editor --");
    m.truncate(cols);
    assert(m@ == (if banner_text().len() <= cols {
        banner_text()
    } else {
        banner_text().take(cols as int)
    }));
    let padding = (cols - m.len()) / 2;
    let mut out: Vec<char> = Vec::new();
    if padding != 0 {
        out.push('~');
        let mut k: usize = 1;
        while k < padding
            invariant
                1 <= k <= padding,
                out@ == seq!['~'] + spaces(k - 1),
            decreases padding - k,
        {
            out.push(' ');
            k = k + 1;
            assert(out@ =~= seq!['~'] + spaces(k - 1));
        }
        let mut j: usize = 0;
        let ghost pre = out@;
        while j < m.len()
            invariant
                0 <= j <= m@.len(),
                out@ == pre + m@.take(j as int),
            decreases m@.len() - j,
        {
            out.push(m[j]);
            j = j + 1;
            assert(out@ =~= pre + m@.take(j as int));
        }
        assert(m@.take(m@.len() as int) =~= m@);
        assert(out@ =~= banner_row(cols as int));
        out
    } else {
        assert(out@ =~= Seq::<char>::empty());
        let mut j: usize = 0;
        while j < m.len()
            invariant
                0 <= j <= m@.len(),
                out@ == m@.take(j as int),
            decreases m@.len() - j,
        {
            out.push(m[j]);
            j = j + 1;
            assert(out@ =~= m@.take(j as int));
        }
        assert(m@.take(m@.len() as int) =~= m@);
        out
    }
}

impl Output {
    /// Produce one frame of draw instructions.  Scroll offsets are pulled
    /// to the cursor first; buffer and messages are read, never changed.
    pub fn render_screen(&mut self, e_rows: &EditorRows, mode: &Mode, disk_size: u64) -> (frame:
        Frame)
        requires
            e_rows.wf(),
            old(self).c_ctrl.cy < e_rows.raws().len(),
            old(self).c_ctrl.cx <= e_rows.raws()[old(self).c_ctrl.cy as int].len(),
            old(self).c_ctrl.screen_size.0 >= 1,
            old(self).c_ctrl.screen_size.1 >= 1,
        ensures
            ({
                let cols = old(self).c_ctrl.screen_size.0 as int;
                let text_rows = old(self).c_ctrl.screen_size.1 as int;
                let c = final(self).c_ctrl;
                &&& frame.rows@.len() == text_rows
                &&& forall|i: int|
                    0 <= i < text_rows ==> frame.rows@[i]@ == frame_row(
                        e_rows.raws(),
                        c.y_offset as int,
                        c.x_offset as int,
                        cols,
                        text_rows,
                        i,
                    )
                &&& frame.bar@ == bar_line(
                    info_left(
                        match e_rows.filename {
                            Some(n) => Some(n@),
                            None => None,
                        },
                        final(self).dirty,
                        e_rows.raws().len() as int,
                        disk_size as int,
                    ),
                    info_right(
                        c.cy - c.y_offset,
                        c.rx - c.x_offset,
                        c.rx as int,
                        crate::cursor::col_bound(e_rows.raws()[c.cy as int], Mode::Normal),
                        c.cmdx as int,
                    ),
                    cols,
                )
                &&& frame.in_command == (*mode is Command)
                &&& (*mode is Command) ==> frame.msg@ == command_row(final(self).cmd)
                    && frame.cmd_cursor == c.cmdx
                &&& !(*mode is Command) ==> (frame.msg@, frame.msg_danger) == message_row(
                    final(self).cmd_msg,
                    final(self).stt_msg,
                    cols,
                )
                &&& frame.cursor_x == c.rx - c.x_offset
                &&& frame.cursor_y == c.cy - c.y_offset
            }),
            final(self).c_ctrl.cy == old(self).c_ctrl.cy,
            final(self).c_ctrl.cmdx == old(self).c_ctrl.cmdx,
            final(self).c_ctrl.screen_size == old(self).c_ctrl.screen_size,
            final(self).c_ctrl.cy < e_rows.raws().len(),
            final(self).c_ctrl.cx <= e_rows.raws()[final(self).c_ctrl.cy as int].len(),
            final(self).stt_msg == old(self).stt_msg,
            final(self).cmd_msg == old(self).cmd_msg,
            final(self).cmd == old(self).cmd,
            final(self).dirty == old(self).dirty,
    {
        self.c_ctrl.scroll(e_rows);
        let cols = self.c_ctrl.screen_size.0;
        let text_rows = self.c_ctrl.screen_size.1;
        let n = e_rows.num_rows();

        let c_x = self.c_ctrl.rx - self.c_ctrl.x_offset;
        let c_y = self.c_ctrl.cy - self.c_ctrl.y_offset;

        let mut rows: Vec<Vec<char>> = Vec::new();
        let mut i: usize = 0;
        while i < text_rows
            invariant
                0 <= i <= text_rows,
                e_rows.wf(),
                n == e_rows.raws().len(),
                self.c_ctrl.y_offset < n,
                rows@.len() == i,
                forall|j: int|
                    0 <= j < i ==> rows@[j]@ == frame_row(
                        e_rows.raws(),
                        self.c_ctrl.y_offset as int,
                        self.c_ctrl.x_offset as int,
                        cols as int,
                        text_rows as int,
                        j,
                    ),
            decreases text_rows - i,
        {
            let beyond = i >= n - self.c_ctrl.y_offset;
            let row: Vec<char>;
            if beyond {
                let first_empty = n == 1 && e_rows.get_raw(0).len() == 0;
                if first_empty && i == text_rows / 3 {
                    row = make_banner(cols);
                } else {
                    let mut t: Vec<char> = Vec::new();
                    t.push('~');
                    assert(t@ =~= seq!['~']);
                    row = t;
                }
            } else {
                let r = i + self.c_ctrl.y_offset;
                let rend = e_rows.get_render(r);
                row = push_visible(rend, self.c_ctrl.x_offset, cols);
            }
            rows.push(row);
            i = i + 1;
        }

        let bar = self.make_bar(e_rows, disk_size, c_x, c_y);

        let frame: Frame;
        match mode {
            Mode::Command => {
                let mut msg: Vec<char> = Vec::new();
                msg.push(':');
                assert(msg@ =~= seq![':']);
                match self.cmd.as_ref() {
                    Some(c) => {
                        let ghost pre = msg@;
                        let mut j: usize = 0;
                        while j < c.len()
                            invariant
                                0 <= j <= c@.len(),
                                msg@ == pre + c@.take(j as int),
                            decreases c@.len() - j,
                        {
                            msg.push(c[j]);
                            j = j + 1;
                            assert(msg@ =~= pre + c@.take(j as int));
                        }
                        assert(c@.take(c@.len() as int) =~= c@);
                    },
                    None => {
                        assert(msg@ =~= command_row(self.cmd));
                    },
                }
                assert(msg@ =~= command_row(self.cmd));
                frame = Frame {
                    rows,
                    bar,
                    msg,
                    msg_danger: false,
                    in_command: true,
                    cursor_x: c_x,
                    cursor_y: c_y,
                    cmd_cursor: self.c_ctrl.cmdx,
                };
            },
            _ => {
                let mut msg: Vec<char> = Vec::new();
                let danger: bool;
                let picked = if self.cmd_msg.is_some() {
                    self.cmd_msg.as_ref()
                } else {
                    self.stt_msg.as_ref()
                };
                match picked {
                    Some(m) => {
                        danger = matches!(m.level, MessageLevel::Danger);
                        let limit = if m.content.len() <= cols {
                            m.content.len()
                        } else {
                            cols
                        };
                        let mut j: usize = 0;
                        while j < limit
                            invariant
                                0 <= j <= limit <= m.content@.len(),
                                msg@ == m.content@.take(j as int),
                            decreases limit - j,
                        {
                            msg.push(m.content[j]);
                            j = j + 1;
                            assert(msg@ =~= m.content@.take(j as int));
                        }
                        assert(m.content@.take(m.content@.len() as int) =~= m.content@);
                    },
                    None => {
                        danger = false;
                    },
                }
                frame = Frame {
                    rows,
                    bar,
                    msg,
                    msg_danger: danger,
                    in_command: false,
                    cursor_x: c_x,
                    cursor_y: c_y,
                    cmd_cursor: self.c_ctrl.cmdx,
                };
            },
        }
        frame
    }

    /// Build the status bar for the current state.
    fn make_bar(&self, e_rows: &EditorRows, disk_size: u64, c_x: usize, c_y: usize) -> (bar: Vec<
        char,
    >)
        requires
            self.c_ctrl.cy < e_rows.raws().len(),
        ensures
            bar@ == bar_line(
                info_left(
                    match e_rows.filename {
                        Some(n) => Some(n@),
                        None => None,
                    },
                    self.dirty,
                    e_rows.raws().len() as int,
                    disk_size as int,
                ),
                info_right(
                    c_y as int,
                    c_x as int,
                    self.c_ctrl.rx as int,
                    crate::cursor::col_bound(e_rows.raws()[self.c_ctrl.cy as int], Mode::Normal),
                    self.c_ctrl.cmdx as int,
                ),
                self.c_ctrl.screen_size.0 as int,
            ),
    {
        let cols = self.c_ctrl.screen_size.0;

        let mut left: Vec<char> = Vec::new();
        left.push('"');
        assert(left@ =~= seq!['"']);
        match e_rows.filename.as_ref() {
            Some(n) => {
                let name = base_name_of(n);
                let ghost pre = left@;
                let mut j: usize = 0;
                while j < name.len()
                    invariant
                        0 <= j <= name@.len(),
                        left@ == pre + name@.take(j as int),
                    decreases name@.len() - j,
                {
                    left.push(name[j]);
                    j = j + 1;
                    assert(left@ =~= pre + name@.take(j as int));
                }
                assert(name@.take(name@.len() as int) =~= name@);
            },
            None => {
                push_str_chars(&mut left, "No name");
            },
        }
        left.push('"');
        if self.dirty > 0 {
            left.push('*');
        }
        left.push(' ');
        push_dec_usize(&mut left, e_rows.num_rows());
        push_str_chars(&mut left, "L, ");
        push_dec_u64(&mut left, disk_size);
        left.push('B');
        proof {
            reveal_strlit("L, ");
            assert(left@ =~= info_left(
                match e_rows.filename {
                    Some(n) => Some(n@),
                    None => None,
                },
                self.dirty,
                e_rows.raws().len() as int,
                disk_size as int,
            ));
        }

        let mut right: Vec<char> = Vec::new();
        push_dec_usize(&mut right, c_y);
        right.push(':');
        push_dec_usize(&mut right, c_x);
        right.push('/');
        push_dec_usize(&mut right, self.c_ctrl.rx);
        push_str_chars(&mut right, " (");
        let row_len = e_rows.get_raw(self.c_ctrl.cy).len();
        let row_last = if row_len == 0 {
            0
        } else {
            row_len - 1
        };
        push_dec_usize(&mut right, row_last);
        push_str_chars(&mut right, ") ");
        push_dec_usize(&mut right, self.c_ctrl.cmdx);
        proof {
            reveal_strlit(" (");
            reveal_strlit(") ");
            assert(right@ =~= info_right(
                c_y as int,
                c_x as int,
                self.c_ctrl.rx as int,
                crate::cursor::col_bound(e_rows.raws()[self.c_ctrl.cy as int], Mode::Normal),
                self.c_ctrl.cmdx as int,
            ));
        }

        let mut bar = left;
        if bar.len() >= cols {
            bar.truncate(cols);
        } else {
            let space = cols - bar.len();
            let ghost pre = bar@;
            if right.len() <= space {
                let pad = space - right.len();
                let mut k: usize = 0;
                while k < pad
                    invariant
                        0 <= k <= pad,
                        bar@ == pre + spaces(k as int),
                    decreases pad - k,
                {
                    bar.push(' ');
                    k = k + 1;
                    assert(bar@ =~= pre + spaces(k as int));
                }
                let ghost pre2 = bar@;
                let mut j: usize = 0;
                while j < right.len()
                    invariant
                        0 <= j <= right@.len(),
                        bar@ == pre2 + right@.take(j as int),
                    decreases right@.len() - j,
                {
                    bar.push(right[j]);
                    j = j + 1;
                    assert(bar@ =~= pre2 + right@.take(j as int));
                }
                assert(right@.take(right@.len() as int) =~= right@);
            } else {
                let mut k: usize = 0;
                while k < space
                    invariant
                        0 <= k <= space,
                        bar@ == pre + spaces(k as int),
                    decreases space - k,
                {
                    bar.push(' ');
                    k = k + 1;
                    assert(bar@ =~= pre + spaces(k as int));
                }
            }
        }
        proof {
            assert(bar@ =~= bar_line(
                info_left(
                    match e_rows.filename {
                        Some(n) => Some(n@),
                        None => None,
                    },
                    self.dirty,
                    e_rows.raws().len() as int,
                    disk_size as int,
                ),
                info_right(
                    c_y as int,
                    c_x as int,
                    self.c_ctrl.rx as int,
                    crate::cursor::col_bound(e_rows.raws()[self.c_ctrl.cy as int], Mode::Normal),
                    self.c_ctrl.cmdx as int,
                ),
                self.c_ctrl.screen_size.0 as int,
            ));
        }
        bar
    }
}

/// The part of `s` after its last `/`.
fn base_name_of(v: &Vec<char>) -> (out: Vec<char>)
    ensures
        out@ == base_name(v@),
{
    let ghost s = v;
    let n = v.len();
    let mut cut: usize = 0;
    let mut i: usize = 0;
    while i < n
        invariant
            0 <= cut <= i <= n,
            n == v@.len(),
            v@ == s@,
            base_name(s@.take(i as int)) == s@.take(i as int).skip(cut as int),
        decreases n - i,
    {
        proof {
            assert(s@.take(i + 1).drop_last() =~= s@.take(i as int));
            assert(s@.take(i + 1).last() == s@[i as int]);
        }
        if v[i] == '/' {
            cut = i + 1;
            proof {
                assert(base_name(s@.take(i + 1)) =~= s@.take(i + 1).skip(i + 1));
            }
        } else {
            proof {
                assert(base_name(s@.take(i + 1)) =~= s@.take(i + 1).skip(cut as int));
            }
        }
        i = i + 1;
    }
    assert(s@.take(n as int) =~= s@);
    let mut out: Vec<char> = Vec::new();
    let mut j: usize = cut;
    while j < n
        invariant
            cut <= j <= n,
            n == v@.len(),
            v@ == s@,
            out@ == s@.subrange(cut as int, j as int),
        decreases n - j,
    {
        out.push(v[j]);
        j = j + 1;
        assert(out@ =~= s@.subrange(cut as int, j as int));
    }
    assert(out@ =~= s@.skip(cut as int));
    out
}

} // verus!
