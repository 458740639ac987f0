//! The modal input dispatcher and the command interpreter: one logical key
//! event at a time goes in; buffer, cursor and message state change as the
//! active mode asks; quit and save decisions come back out as actions for
//! the caller to perform.

use vstd::prelude::*;

use crate::buffer::EditorRows;
use crate::cursor::{cmd_cursor, col_bound, mv_cursor, CursorController, Direction, Mode};
use crate::out::{bump, MessageLevel, Output};
use crate::text::{dec_str, push_dec_usize, push_str_chars};

verus! {

/// A decoded logical key event.
#[derive(Clone, Copy, PartialEq, Eq, Structural, Debug)]
pub enum Key {
    /// A printable character.
    Char(char),
    Up,
    Down,
    Left,
    Right,
    Esc,
    Enter,
    Backspace,
    Tab,
    /// Any key the editor ignores.
    Other,
}

/// What the caller must do after a key has been processed.
#[derive(Clone, Copy, PartialEq, Eq, Structural, Debug)]
pub enum EditorAction {
    /// Keep going; nothing to perform outside.
    Continue,
    /// Leave the editor.
    Quit,
    /// Write the buffer to its path, then report back through
    /// [`Editor::save_done`] or [`Editor::save_failed`].
    Save { and_quit: bool },
    /// Write the buffer to its path, then report back through
    /// [`Editor::quick_save_done`]; a failure ends the program.
    QuickSave,
}

/// Split `s` into tokens on single spaces, `cur` being the token read so
/// far: `n` spaces yield `n + 1` tokens, so doubled spaces yield empty
/// tokens and the empty string yields one empty token.
pub open spec fn split_sp_acc(s: Seq<char>, cur: Seq<char>) -> Seq<Seq<char>>
    decreases s.len(),
{
    if s.len() == 0 {
        seq![cur]
    } else if s[0] == ' ' {
        seq![cur] + split_sp_acc(s.skip(1), Seq::empty())
    } else {
        split_sp_acc(s.skip(1), cur.push(s[0]))
    }
}

/// The space-separated tokens of a command string.
pub open spec fn tokens_of(s: Seq<char>) -> Seq<Seq<char>> {
    split_sp_acc(s, Seq::empty())
}

/// The recognized command forms.
pub enum CmdKind {
    /// `q`: quit unless there are unsaved changes.
    Quit,
    /// `q!`: quit unconditionally.
    ForceQuit,
    /// `w`, or `w <name>`: save, first associating `<name>` if given.
    Write(Option<Seq<char>>),
    /// `wq`, or `wq <name>`: save, then quit on success.
    WriteQuit(Option<Seq<char>>),
    /// Anything else.
    Unknown,
}

/// Classify a command string by its tokens.
pub open spec fn cmd_kind(cmd: Seq<char>) -> CmdKind {
    let t = tokens_of(cmd);
    if t.len() == 1 && t[0] == "q"@ {
        CmdKind::Quit
    } else if t.len() == 1 && t[0] == "q!"@ {
        CmdKind::ForceQuit
    } else if t.len() == 1 && t[0] == "w"@ {
        CmdKind::Write(None)
    } else if t.len() == 1 && t[0] == "wq"@ {
        CmdKind::WriteQuit(None)
    } else if t.len() == 2 && t[0] == "w"@ {
        CmdKind::Write(Some(t[1]))
    } else if t.len() == 2 && t[0] == "wq"@ {
        CmdKind::WriteQuit(Some(t[1]))
    } else {
        CmdKind::Unknown
    }
}

/// The action a submitted command line leads to: `q` quits only with no
/// unsaved changes, `q!` always quits, the write forms ask for a save
/// whenever a path is at hand (given now or already associated), and
/// everything else (including an unknown command) stays in the editor.
pub open spec fn command_action(
    cmd: Option<Vec<char>>,
    dirty: u64,
    filename: Option<Vec<char>>,
) -> EditorAction {
    match cmd {
        None => EditorAction::Continue,
        Some(c) => match cmd_kind(c@) {
            CmdKind::Quit => if dirty > 0 {
                EditorAction::Continue
            } else {
                EditorAction::Quit
            },
            CmdKind::ForceQuit => EditorAction::Quit,
            CmdKind::Write(arg) => if arg is None && filename is None {
                EditorAction::Continue
            } else {
                EditorAction::Save { and_quit: false }
            },
            CmdKind::WriteQuit(arg) => if arg is None && filename is None {
                EditorAction::Continue
            } else {
                EditorAction::Save { and_quit: true }
            },
            CmdKind::Unknown => EditorAction::Continue,
        },
    }
}

/// Splitting walks straight through a stretch with no spaces: it all
/// lands in the current token.
proof fn lemma_split_sp_nospace(s: Seq<char>, cur: Seq<char>)
    requires
        forall|i: int| 0 <= i < s.len() ==> s[i] != ' ',
    ensures
        split_sp_acc(s, cur) == seq![cur + s],
    decreases s.len(),
{
    if s.len() == 0 {
        assert(cur + s =~= cur);
    } else {
        lemma_split_sp_nospace(s.skip(1), cur.push(s[0]));
        assert(cur.push(s[0]) + s.skip(1) =~= cur + s);
    }
}

/// A command whose text has no spaces is its own single token.
proof fn lemma_single_token(c: Seq<char>)
    requires
        forall|i: int| 0 <= i < c.len() ==> c[i] != ' ',
    ensures
        tokens_of(c) == seq![c],
{
    lemma_split_sp_nospace(c, Seq::empty());
    assert(Seq::<char>::empty() + c =~= c);
}

/// The command `q!` leaves the editor whatever the dirty counter or the
/// file association hold.
pub proof fn lemma_force_quit_always_quits(cmd: Vec<char>, dirty: u64, filename: Option<Vec<char>>)
    requires
        cmd@ == "q!"@,
    ensures
        command_action(Some(cmd), dirty, filename) == EditorAction::Quit,
{
    reveal_strlit("q!");
    reveal_strlit("q");
    assert(forall|i: int| 0 <= i < cmd@.len() ==> cmd@[i] != ' ');
    lemma_single_token(cmd@);
    assert(tokens_of(cmd@)[0] == "q!"@);
    assert("q!"@ != "q"@);
}

/// The command `q` with unsaved changes keeps the editor open.
pub proof fn lemma_quit_guards_unsaved(cmd: Vec<char>, dirty: u64, filename: Option<Vec<char>>)
    requires
        cmd@ == "q"@,
        dirty > 0,
    ensures
        command_action(Some(cmd), dirty, filename) == EditorAction::Continue,
{
    reveal_strlit("q");
    assert(forall|i: int| 0 <= i < cmd@.len() ==> cmd@[i] != ' ');
    lemma_single_token(cmd@);
    assert(tokens_of(cmd@)[0] == "q"@);
}

/// The views of a vector of tokens.
pub open spec fn views_of(toks: Seq<Vec<char>>) -> Seq<Seq<char>> {
    toks.map_values(|t: Vec<char>| t@)
}

/// A copy of a character vector.
fn copy_chars(v: &Vec<char>) -> (out: Vec<char>)
    ensures
        out@ == v@,
{
    let n = v.len();
    let mut out: Vec<char> = Vec::new();
    let mut i: usize = 0;
    while i < n
        invariant
            0 <= i <= n,
            n == v@.len(),
            out@ == v@.take(i as int),
        decreases n - i,
    {
        out.push(v[i]);
        i = i + 1;
        assert(out@ =~= v@.take(i as int));
    }
    assert(v@.take(n as int) =~= v@);
    out
}

/// Whether the token `t` spells exactly `s`.
fn tok_eq(t: &Vec<char>, s: &str) -> (r: bool)
    ensures
        r == (t@ == s@),
{
    let n = s.unicode_len();
    if t.len() != n {
        return false;
    }
    let mut i: usize = 0;
    while i < n
        invariant
            0 <= i <= n,
            n == s@.len(),
            n == t@.len(),
            forall|j: int| 0 <= j < i ==> t@[j] == s@[j],
        decreases n - i,
    {
        if t[i] != s.get_char(i) {
            return false;
        }
        i = i + 1;
    }
    proof {
        assert(t@ =~= s@);
    }
    true
}

/// Split a command string into its space-separated tokens.
fn split_tokens(c: &Vec<char>) -> (toks: Vec<Vec<char>>)
    ensures
        views_of(toks@) == tokens_of(c@),
        toks@.len() >= 1,
{
    let n = c.len();
    let mut toks: Vec<Vec<char>> = Vec::new();
    let mut cur: Vec<char> = Vec::new();
    let mut i: usize = 0;
    proof {
        assert(c@.skip(0) =~= c@);
        assert(views_of(toks@) + split_sp_acc(c@, Seq::empty()) =~= split_sp_acc(
            c@,
            Seq::empty(),
        ));
    }
    while i < n
        invariant
            0 <= i <= n,
            n == c@.len(),
            tokens_of(c@) == views_of(toks@) + split_sp_acc(c@.skip(i as int), cur@),
        decreases n - i,
    {
        let ch = c[i];
        proof {
            assert(c@.skip(i as int)[0] == c@[i as int]);
            assert(c@.skip(i as int).skip(1) =~= c@.skip(i + 1));
        }
        if ch == ' ' {
            let ghost prevmap = views_of(toks@);
            let ghost cur0 = cur@;
            let tok = cur;
            cur = Vec::new();
            toks.push(tok);
            proof {
                assert(views_of(toks@) =~= prevmap.push(cur0));
                assert(prevmap.push(cur0) + split_sp_acc(c@.skip(i + 1), Seq::empty()) =~= prevmap
                    + (seq![cur0] + split_sp_acc(c@.skip(i + 1), Seq::empty())));
            }
        } else {
            cur.push(ch);
        }
        i = i + 1;
    }
    proof {
        assert(c@.skip(n as int) =~= Seq::<char>::empty());
    }
    let ghost prevmap = views_of(toks@);
    let ghost curfin = cur@;
    toks.push(cur);
    proof {
        assert(views_of(toks@) =~= prevmap.push(curfin));
        assert(prevmap.push(curfin) =~= prevmap + seq![curfin]);
        assert(views_of(toks@) =~= tokens_of(c@));
    }
    toks
}

/// The effect of one arrow key in any mode: the active cursor (the
/// command-line cursor in Command mode, the buffer cursor otherwise)
/// moves one step and everything else stays.
pub open spec fn cursor_step(a: Editor, b: Editor, dir: Direction) -> bool {
    &&& b.mode == a.mode
    &&& b.e_rows == a.e_rows
    &&& b.last_key == a.last_key
    &&& b.output.stt_msg == a.output.stt_msg
    &&& b.output.cmd_msg == a.output.cmd_msg
    &&& b.output.cmd == a.output.cmd
    &&& b.output.dirty == a.output.dirty
    &&& b.output.c_ctrl.rx == a.output.c_ctrl.rx
    &&& b.output.c_ctrl.screen_size == a.output.c_ctrl.screen_size
    &&& b.output.c_ctrl.y_offset == a.output.c_ctrl.y_offset
    &&& b.output.c_ctrl.x_offset == a.output.c_ctrl.x_offset
    &&& if a.mode is Command {
        &&& b.output.c_ctrl.cmdx == cmd_cursor(
            a.output.c_ctrl.cmdx as int,
            dir,
            a.output.cmd_len(),
        )
        &&& b.output.c_ctrl.cx == a.output.c_ctrl.cx
        &&& b.output.c_ctrl.cy == a.output.c_ctrl.cy
    } else {
        &&& (b.output.c_ctrl.cx as int, b.output.c_ctrl.cy as int) == mv_cursor(
            a.output.c_ctrl.cx as int,
            a.output.c_ctrl.cy as int,
            dir,
            a.e_rows.raws(),
            a.mode,
        )
        &&& b.output.c_ctrl.cmdx == a.output.c_ctrl.cmdx
    }
}

/// The full effect of one Insert-mode key on the editor: the transition
/// relation that [`Editor::handle_insert_press`] establishes.
pub open spec fn insert_step(a: Editor, b: Editor, key: Key) -> bool {
    let cx = a.output.c_ctrl.cx as int;
    let cy = a.output.c_ctrl.cy as int;
    let raws = a.e_rows.raws();
    let row = raws[cy];
    &&& b.last_key == a.last_key
    &&& b.output.c_ctrl.rx == a.output.c_ctrl.rx
    &&& b.output.c_ctrl.cmdx == a.output.c_ctrl.cmdx
    &&& b.output.c_ctrl.screen_size == a.output.c_ctrl.screen_size
    &&& b.output.c_ctrl.y_offset == a.output.c_ctrl.y_offset
    &&& b.output.c_ctrl.x_offset == a.output.c_ctrl.x_offset
    &&& b.output.cmd == a.output.cmd
    &&& b.output.stt_msg == a.output.stt_msg
    &&& b.output.cmd_msg == a.output.cmd_msg
    &&& (match key {
    Key::Esc => {
        &&& b.mode is Normal
        &&& b.e_rows == a.e_rows
        &&& (b.output.c_ctrl.cx as int, b.output.c_ctrl.cy as int) == mv_cursor(
            cx,
            cy,
            Direction::Left,
            raws,
            Mode::Normal,
        )
        &&& b.output.dirty == a.output.dirty
    },
    Key::Char(c) => {
        &&& b.mode is Insert
        &&& b.e_rows.raws() == raws.update(cy, row.insert(cx, c))
        &&& b.output.c_ctrl == (CursorController {
            cx: (cx + 1) as usize,
            ..a.output.c_ctrl
        })
        &&& b.output.dirty == bump(a.output.dirty)
        &&& b.e_rows.filename == a.e_rows.filename
    },
    Key::Tab => {
        &&& b.mode is Insert
        &&& b.e_rows.raws() == raws.update(cy, row.insert(cx, '\t'))
        &&& b.output.c_ctrl == (CursorController {
            cx: (cx + 1) as usize,
            ..a.output.c_ctrl
        })
        &&& b.output.dirty == bump(a.output.dirty)
        &&& b.e_rows.filename == a.e_rows.filename
    },
    Key::Enter => {
        &&& b.mode is Insert
        &&& b.e_rows.raws() == raws.update(cy, row.take(cx)).insert(
            cy + 1,
            row.skip(cx),
        )
        &&& b.output.c_ctrl == (CursorController {
            cx: 0,
            cy: (cy + 1) as usize,
            ..a.output.c_ctrl
        })
        &&& b.output.dirty == bump(a.output.dirty)
        &&& b.e_rows.filename == a.e_rows.filename
    },
    Key::Backspace => {
        &&& b.mode is Insert
        &&& if cx > 0 {
            b.e_rows.raws() == raws.update(cy, row.remove(cx - 1))
                && b.output.c_ctrl == (CursorController {
                cx: (cx - 1) as usize,
                ..a.output.c_ctrl
            }) && b.output.dirty == bump(a.output.dirty)
        } else if cy > 0 {
            b.e_rows.raws() == raws.update(
                cy - 1,
                raws[cy - 1] + row,
            ).remove(cy) && b.output.c_ctrl == (CursorController {
                cx: raws[cy - 1].len() as usize,
                cy: (cy - 1) as usize,
                ..a.output.c_ctrl
            }) && b.output.dirty == bump(a.output.dirty)
        } else {
            b.e_rows == a.e_rows && b.output.c_ctrl
                == a.output.c_ctrl && b.output.dirty == a.output.dirty
        }
        &&& b.e_rows.filename == a.e_rows.filename
    },
    _ => {
        &&& b == a
    },
    })
}

/// The full effect of one Command-mode key on the editor, together with
/// the action it returns: the transition relation that
/// [`Editor::handle_command_press`] establishes.
pub open spec fn command_step(a: Editor, b: Editor, key: Key, r: EditorAction) -> bool {
    let cx = a.output.c_ctrl.cx as int;
    let cy = a.output.c_ctrl.cy as int;
    let cmdx = a.output.c_ctrl.cmdx as int;
    let raws = a.e_rows.raws();
    &&& b.last_key == a.last_key
    &&& b.output.c_ctrl.rx == a.output.c_ctrl.rx
    &&& b.output.c_ctrl.screen_size == a.output.c_ctrl.screen_size
    &&& b.output.c_ctrl.y_offset == a.output.c_ctrl.y_offset
    &&& b.output.c_ctrl.x_offset == a.output.c_ctrl.x_offset
    &&& (match key {
    Key::Esc => {
        &&& r == EditorAction::Continue
        &&& b.mode is Normal
        &&& b.e_rows == a.e_rows
        &&& (b.output.c_ctrl.cx as int, b.output.c_ctrl.cy as int) == mv_cursor(
            cx,
            cy,
            Direction::Left,
            raws,
            Mode::Normal,
        )
        &&& b.output.cmd is None
        &&& b.output.c_ctrl.cmdx == 1
        &&& b.output.dirty == a.output.dirty
    },
    Key::Char(c) => {
        &&& r == EditorAction::Continue
        &&& b.mode is Command
        &&& b.e_rows == a.e_rows
        &&& b.output.cmd matches Some(v) && v@ == (match a.output.cmd {
            Some(o) => o@,
            None => Seq::<char>::empty(),
        }).push(c)
        &&& b.output.c_ctrl == (CursorController {
            cmdx: (cmdx + 1) as usize,
            ..a.output.c_ctrl
        })
        &&& b.output.dirty == a.output.dirty
    },
    Key::Enter => {
        &&& r == command_action(
            a.output.cmd,
            a.output.dirty,
            a.e_rows.filename,
        )
        &&& b.mode is Normal
        &&& b.e_rows.rows == a.e_rows.rows
        &&& (b.output.c_ctrl.cx as int, b.output.c_ctrl.cy as int) == mv_cursor(
            cx,
            cy,
            Direction::Left,
            raws,
            Mode::Normal,
        )
        &&& b.output.cmd is None
        &&& b.output.c_ctrl.cmdx == 1
    },
    Key::Backspace => {
        &&& r == EditorAction::Continue
        &&& b.mode is Command
        &&& b.e_rows == a.e_rows
        &&& b.output.dirty == a.output.dirty
        &&& if a.output.cmd is Some && cmdx > 1 {
            b.output.cmd matches Some(c2) && c2@ == a.output.cmd->Some_0@.remove(cmdx - 2) && b.output.c_ctrl
                == (CursorController {
                cmdx: (cmdx - 1) as usize,
                ..a.output.c_ctrl
            })
        } else {
            b.output.cmd == a.output.cmd && b.output.c_ctrl == a.output.c_ctrl
        }
    },
    _ => {
        &&& r == EditorAction::Continue
        &&& b == a
    },
    })
}

/// The whole editor: active mode, output state, line buffer, and the
/// pending two-key prefix.
pub struct Editor {
    /// The active interaction mode.
    pub mode: Mode,
    /// Cursor, scroll, message and command state.
    pub output: Output,
    /// The line buffer.
    pub e_rows: EditorRows,
    /// The armed first key of a two-key Normal-mode sequence (`gg`, `dd`,
    /// `ge`).
    pub last_key: Option<Key>,
}

impl Editor {
    /// The editor invariant: the buffer is well formed and never empty,
    /// the cursor rests inside it within the active mode's column bound,
    /// and the command cursor stays inside the command string.
    pub open spec fn wf(self) -> bool {
        &&& self.e_rows.wf()
        &&& self.e_rows.raws().len() >= 1
        &&& self.output.c_ctrl.cy < self.e_rows.raws().len()
        &&& self.output.c_ctrl.cx <= col_bound(
            self.e_rows.raws()[self.output.c_ctrl.cy as int],
            self.mode,
        )
        &&& self.output.wf_cmd()
    }

    /// Machine-size headroom for one more step: one more line, one more
    /// character on the cursor line, one more command character.
    pub open spec fn room(self) -> bool {
        &&& self.e_rows.raws().len() < usize::MAX
        &&& self.e_rows.raws()[self.output.c_ctrl.cy as int].len() < usize::MAX
        &&& self.output.cmd_len() + 1 < usize::MAX
    }

    /// Whether [`Editor::room`] holds of the current state, checked at
    /// run time: a caller loops on [`Editor::press`] only while this says
    /// the counters have headroom.
    pub fn has_room(&self) -> (b: bool)
        requires
            self.wf(),
        ensures
            b == self.room(),
    {
        let n = self.e_rows.num_rows();
        if !(n < usize::MAX) {
            return false;
        }
        let row_len = self.e_rows.get_raw(self.output.c_ctrl.cy).len();
        if !(row_len < usize::MAX) {
            return false;
        }
        let cl = match self.output.get_cmd() {
            Some(c) => c.len(),
            None => 0,
        };
        cl < usize::MAX - 1
    }

    /// A fresh editor over `e_rows`, in Normal mode, for a screen with
    /// `screen_size` (columns, text rows).
    pub fn new(e_rows: EditorRows, screen_size: (usize, usize)) -> (ed: Editor)
        requires
            e_rows.wf(),
            e_rows.raws().len() >= 1,
        ensures
            ed.mode is Normal,
            ed.e_rows == e_rows,
            ed.last_key is None,
            ed.output.c_ctrl == (CursorController {
                cx: 0,
                cy: 0,
                rx: 0,
                cmdx: 1,
                screen_size,
                y_offset: 0,
                x_offset: 0,
            }),
            ed.output.stt_msg is None,
            ed.output.cmd_msg is None,
            ed.output.cmd is None,
            ed.output.dirty == 0,
            ed.wf(),
    {
        Editor { mode: Mode::Normal, output: Output::new(screen_size), e_rows, last_key: None }
    }

    /// Switch to `mode` with its entry and exit effects: Normal pulls the
    /// cursor one column left (Insert's one-past-end position is not a
    /// Normal position) and, when Command mode is being left, drops the
    /// pending command string and resets its cursor; Insert clears the
    /// command message and announces itself; Command resets the command
    /// cursor and clears messages and the old command string.
    pub fn change_mode(&mut self, mode: Mode)
        requires
            old(self).wf(),
        ensures
            final(self).mode == mode,
            final(self).e_rows == old(self).e_rows,
            final(self).last_key == old(self).last_key,
            final(self).output.dirty == old(self).output.dirty,
            final(self).output.c_ctrl.rx == old(self).output.c_ctrl.rx,
            final(self).output.c_ctrl.screen_size == old(self).output.c_ctrl.screen_size,
            final(self).output.c_ctrl.y_offset == old(self).output.c_ctrl.y_offset,
            final(self).output.c_ctrl.x_offset == old(self).output.c_ctrl.x_offset,
            ({
                match mode {
                    Mode::Normal => {
                        &&& (final(self).output.c_ctrl.cx as int, final(self).output.c_ctrl.cy as int) == mv_cursor(
                            old(self).output.c_ctrl.cx as int,
                            old(self).output.c_ctrl.cy as int,
                            Direction::Left,
                            old(self).e_rows.raws(),
                            Mode::Normal,
                        )
                        &&& final(self).output.stt_msg == old(self).output.stt_msg
                        &&& final(self).output.cmd_msg == old(self).output.cmd_msg
                        &&& (old(self).mode is Command ==> final(self).output.cmd is None && final(self).output.c_ctrl.cmdx == 1)
                        &&& (!(old(self).mode is Command) ==> final(self).output.cmd == old(self).output.cmd && final(self).output.c_ctrl.cmdx == old(self).output.c_ctrl.cmdx)
                    },
                    Mode::Insert => {
                        &&& final(self).output.c_ctrl == old(self).output.c_ctrl
                        &&& final(self).output.stt_msg matches Some(m) && m.content@
                            == "-- INSERT --"@ && m.level is Normal
                        &&& final(self).output.cmd_msg is None
                        &&& final(self).output.cmd == old(self).output.cmd
                    },
                    Mode::Command => {
                        &&& final(self).output.c_ctrl == (CursorController {
                            cmdx: 1,
                            ..old(self).output.c_ctrl
                        })
                        &&& final(self).output.stt_msg is None
                        &&& final(self).output.cmd_msg is None
                        &&& final(self).output.cmd is None
                    },
                }
            }),
            final(self).wf(),
    {
        match mode {
            Mode::Normal => {
                if matches!(self.mode, Mode::Command) {
                    self.output.clear_cmd();
                    self.output.reset_cmd_cursor();
                }
                self.output.move_cursor(Direction::Left, &self.e_rows, &Mode::Normal);
            },
            Mode::Insert => {
                self.output.clear_cmd_msg();
                self.output.set_stt_msg("-- INSERT --", MessageLevel::Normal);
            },
            Mode::Command => {
                self.output.reset_cmd_cursor();
                self.output.clear_stt_msg();
                self.output.clear_cmd_msg();
                self.output.clear_cmd();
            },
        }
        self.mode = mode;
    }

    /// Interpret the pending command line: quit and write forms produce
    /// the matching action, everything else reports through the command
    /// message and stays.  A `w <name>` form associates the name first.
    pub fn exec_cmd(&mut self) -> (r: EditorAction)
        requires
            old(self).wf(),
        ensures
            final(self).mode == old(self).mode,
            final(self).last_key == old(self).last_key,
            final(self).output.c_ctrl == old(self).output.c_ctrl,
            final(self).output.stt_msg == old(self).output.stt_msg,
            final(self).output.cmd == old(self).output.cmd,
            final(self).output.dirty == old(self).output.dirty,
            final(self).e_rows.rows == old(self).e_rows.rows,
            final(self).wf(),
            r == command_action(
                old(self).output.cmd,
                old(self).output.dirty,
                old(self).e_rows.filename,
            ),
            ({
                match old(self).output.cmd {
                    None => {
                        &&& final(self).output.cmd_msg matches Some(m) && m.content@
                            == "No command found"@ && m.level is Danger
                        &&& final(self).e_rows.filename == old(self).e_rows.filename
                    },
                    Some(c) => {
                        match cmd_kind(c@) {
                            CmdKind::Quit => {
                                &&& final(self).e_rows.filename == old(self).e_rows.filename
                                &&& if old(self).output.dirty > 0 {
                                    final(self).output.cmd_msg matches Some(m) && m.content@
                                        == "Found unsaved changes, q! to force quit"@
                                        && m.level is Danger
                                } else {
                                    final(self).output.cmd_msg == old(self).output.cmd_msg
                                }
                            },
                            CmdKind::ForceQuit => {
                                &&& final(self).e_rows.filename == old(self).e_rows.filename
                                &&& final(self).output.cmd_msg == old(self).output.cmd_msg
                            },
                            CmdKind::Write(arg) => {
                                &&& (match arg {
                                    Some(n) => final(self).e_rows.filename matches Some(f) && f@
                                        == n,
                                    None => final(self).e_rows.filename == old(self).e_rows.filename,
                                })
                                &&& if arg is None && old(self).e_rows.filename is None {
                                    final(self).output.cmd_msg matches Some(m) && m.content@
                                        == "No file name specified"@ && m.level is Danger
                                } else {
                                    final(self).output.cmd_msg == old(self).output.cmd_msg
                                }
                            },
                            CmdKind::WriteQuit(arg) => {
                                &&& (match arg {
                                    Some(n) => final(self).e_rows.filename matches Some(f) && f@
                                        == n,
                                    None => final(self).e_rows.filename == old(self).e_rows.filename,
                                })
                                &&& if arg is None && old(self).e_rows.filename is None {
                                    final(self).output.cmd_msg matches Some(m) && m.content@
                                        == "No file name specified"@ && m.level is Danger
                                } else {
                                    final(self).output.cmd_msg == old(self).output.cmd_msg
                                }
                            },
                            CmdKind::Unknown => {
                                &&& final(self).e_rows.filename == old(self).e_rows.filename
                                &&& final(self).output.cmd_msg matches Some(m) && m.content@
                                    == "Unknown command '"@ + c@ + seq!['\''] && m.level is Danger
                            },
                        }
                    },
                }
            }),
    {
        let cmd_copy: Option<Vec<char>> = match self.output.get_cmd() {
            Some(v) => Some(copy_chars(v)),
            None => None,
        };
        match cmd_copy {
            None => {
                self.output.set_cmd_msg("No command found", MessageLevel::Danger);
                EditorAction::Continue
            },
            Some(c) => {
                let toks = split_tokens(&c);
                let one = toks.len() == 1;
                let two = toks.len() == 2;
                if one && tok_eq(&toks[0], "q") {
                    if self.output.dirty > 0 {
                        self.output.set_cmd_msg(
                            "Found unsaved changes, q! to force quit",
                            MessageLevel::Danger,
                        );
                        EditorAction::Continue
                    } else {
                        EditorAction::Quit
                    }
                } else if one && tok_eq(&toks[0], "q!") {
                    EditorAction::Quit
                } else if one && tok_eq(&toks[0], "w") {
                    if self.e_rows.filename.is_none() {
                        self.output.set_cmd_msg("No file name specified", MessageLevel::Danger);
                        EditorAction::Continue
                    } else {
                        EditorAction::Save { and_quit: false }
                    }
                } else if one && tok_eq(&toks[0], "wq") {
                    if self.e_rows.filename.is_none() {
                        self.output.set_cmd_msg("No file name specified", MessageLevel::Danger);
                        EditorAction::Continue
                    } else {
                        EditorAction::Save { and_quit: true }
                    }
                } else if two && tok_eq(&toks[0], "w") {
                    let name = copy_chars(&toks[1]);
                    self.e_rows.set_filename_chars(name);
                    EditorAction::Save { and_quit: false }
                } else if two && tok_eq(&toks[0], "wq") {
                    let name = copy_chars(&toks[1]);
                    self.e_rows.set_filename_chars(name);
                    EditorAction::Save { and_quit: true }
                } else {
                    let mut msg = crate::text::str_chars("Unknown command '");
                    let ghost pre = msg@;
                    let mut j: usize = 0;
                    while j < c.len()
                        invariant
                            0 <= j <= c@.len(),
                            msg@ == pre + c@.take(j as int),
                        decreases c@.len() - j,
                    {
                        msg.push(c[j]);
                        j = j + 1;
                        assert(msg@ =~= pre + c@.take(j as int));
                    }
                    assert(c@.take(c@.len() as int) =~= c@);
                    msg.push('\'');
                    assert(msg@ =~= "Unknown command '"@ + c@ + seq!['\'']);
                    self.output.set_cmd_msg_chars(msg, MessageLevel::Danger);
                    EditorAction::Continue
                }
            },
        }
    }

    /// Record a completed save of `written` bytes requested by a command:
    /// report it in the command message, mark the buffer clean, and quit
    /// if the command asked to.
    pub fn save_done(&mut self, written: usize, and_quit: bool) -> (r: EditorAction)
        requires
            old(self).wf(),
        ensures
            final(self).wf(),
            final(self).mode == old(self).mode,
            final(self).last_key == old(self).last_key,
            final(self).e_rows == old(self).e_rows,
            final(self).output.c_ctrl == old(self).output.c_ctrl,
            final(self).output.stt_msg == old(self).output.stt_msg,
            final(self).output.cmd == old(self).output.cmd,
            final(self).output.dirty == 0,
            final(self).output.cmd_msg matches Some(m) && m.content@ == dec_str(written as int)
                + " bytes written to disk"@ && m.level is Normal,
            r == if and_quit {
                EditorAction::Quit
            } else {
                EditorAction::Continue
            },
    {
        let mut msg: Vec<char> = Vec::new();
        push_dec_usize(&mut msg, written);
        push_str_chars(&mut msg, " bytes written to disk");
        assert(msg@ =~= dec_str(written as int) + " bytes written to disk"@);
        self.output.set_cmd_msg_chars(msg, MessageLevel::Normal);
        self.output.dirty = 0;
        if and_quit {
            EditorAction::Quit
        } else {
            EditorAction::Continue
        }
    }

    /// Record a failed save requested by a command: show the error as a
    /// danger message, keep the dirty counter, and stay in the editor.
    pub fn save_failed(&mut self, err: &str)
        requires
            old(self).wf(),
        ensures
            final(self).wf(),
            final(self).mode == old(self).mode,
            final(self).last_key == old(self).last_key,
            final(self).e_rows == old(self).e_rows,
            final(self).output.c_ctrl == old(self).output.c_ctrl,
            final(self).output.stt_msg == old(self).output.stt_msg,
            final(self).output.cmd == old(self).output.cmd,
            final(self).output.dirty == old(self).output.dirty,
            final(self).output.cmd_msg matches Some(m) && m.content@ == err@
                && m.level is Danger,
    {
        self.output.set_cmd_msg(err, MessageLevel::Danger);
    }

    /// Record a completed quick save (the save shortcut): report it in the
    /// status message and mark the buffer clean.
    pub fn quick_save_done(&mut self, written: usize)
        requires
            old(self).wf(),
        ensures
            final(self).wf(),
            final(self).mode == old(self).mode,
            final(self).last_key == old(self).last_key,
            final(self).e_rows == old(self).e_rows,
            final(self).output.c_ctrl == old(self).output.c_ctrl,
            final(self).output.cmd_msg == old(self).output.cmd_msg,
            final(self).output.cmd == old(self).output.cmd,
            final(self).output.dirty == 0,
            final(self).output.stt_msg matches Some(m) && m.content@ == dec_str(written as int)
                + " bytes written to disk"@ && m.level is Normal,
    {
        let mut msg: Vec<char> = Vec::new();
        push_dec_usize(&mut msg, written);
        push_str_chars(&mut msg, " bytes written to disk");
        assert(msg@ =~= dec_str(written as int) + " bytes written to disk"@);
        self.output.set_stt_msg_chars(msg, MessageLevel::Normal);
        self.output.dirty = 0;
    }

    /// One Insert-mode key: Escape returns to Normal mode, printable
    /// characters and Tab insert at the cursor, Enter breaks the line, and
    /// Backspace deletes leftward or joins onto the previous line.
    pub fn handle_insert_press(&mut self, key: Key)
        requires
            old(self).wf(),
            old(self).room(),
            old(self).mode is Insert,
        ensures
            final(self).wf(),
            insert_step(*old(self), *final(self), key),
    {
        match key {
            Key::Esc => {
                self.change_mode(Mode::Normal);
            },
            Key::Char(c) => {
                self.output.insert(&mut self.e_rows, c);
            },
            Key::Tab => {
                self.output.insert(&mut self.e_rows, '\t');
            },
            Key::Enter => {
                self.output.break_line(&mut self.e_rows);
            },
            Key::Backspace => {
                self.output.delete_char(&mut self.e_rows, &Mode::Insert);
            },
            _ => {},
        }
    }

    /// One Command-mode key: printable characters grow the command line,
    /// Backspace shrinks it, Escape cancels, and Enter submits it to the
    /// command interpreter and returns to Normal mode either way.  Leaving
    /// Command mode, committed or cancelled, drops the pending command
    /// string.
    pub fn handle_command_press(&mut self, key: Key) -> (r: EditorAction)
        requires
            old(self).wf(),
            old(self).room(),
            old(self).mode is Command,
        ensures
            final(self).wf(),
            command_step(*old(self), *final(self), key, r),
    {
        match key {
            Key::Esc => {
                self.change_mode(Mode::Normal);
                EditorAction::Continue
            },
            Key::Char(c) => {
                self.output.push_cmd(c);
                EditorAction::Continue
            },
            Key::Enter => {
                let r = self.exec_cmd();
                self.change_mode(Mode::Normal);
                r
            },
            Key::Backspace => {
                self.output.delete_char(&mut self.e_rows, &Mode::Command);
                EditorAction::Continue
            },
            _ => EditorAction::Continue,
        }
    }

    /// One key event with its control-modifier flag, in whatever mode the
    /// editor is in: the save shortcut (Control-S) asks for a quick save
    /// in every mode, arrow keys always move the active cursor, and
    /// everything else goes to the active mode's handler.
    pub fn press(&mut self, key: Key, ctrl: bool) -> (r: EditorAction)
        requires
            old(self).wf(),
            old(self).room(),
        ensures
            final(self).wf(),
            ({
                let a = *old(self);
                let b = *final(self);
                if ctrl && key == Key::Char('s') {
                    b == a && r == EditorAction::QuickSave
                } else {
                    match key {
                        Key::Up => cursor_step(a, b, Direction::Up) && r
                            == EditorAction::Continue,
                        Key::Down => cursor_step(a, b, Direction::Down) && r
                            == EditorAction::Continue,
                        Key::Left => cursor_step(a, b, Direction::Left) && r
                            == EditorAction::Continue,
                        Key::Right => cursor_step(a, b, Direction::Right) && r
                            == EditorAction::Continue,
                        _ => match a.mode {
                            Mode::Normal => crate::normal::normal_step(a, b, key) && r
                                == EditorAction::Continue,
                            Mode::Insert => insert_step(a, b, key) && r
                                == EditorAction::Continue,
                            Mode::Command => command_step(a, b, key, r),
                        },
                    }
                }
            }),
    {
        if ctrl {
            match key {
                Key::Char(c) => {
                    if c == 's' {
                        return EditorAction::QuickSave;
                    }
                },
                _ => {},
            }
        }
        match key {
            Key::Up => {
                self.output.move_cursor(Direction::Up, &self.e_rows, &self.mode);
                EditorAction::Continue
            },
            Key::Down => {
                self.output.move_cursor(Direction::Down, &self.e_rows, &self.mode);
                EditorAction::Continue
            },
            Key::Left => {
                self.output.move_cursor(Direction::Left, &self.e_rows, &self.mode);
                EditorAction::Continue
            },
            Key::Right => {
                self.output.move_cursor(Direction::Right, &self.e_rows, &self.mode);
                EditorAction::Continue
            },
            _ => {
                match self.mode {
                    Mode::Normal => {
                        self.handle_normal_press(key);
                        EditorAction::Continue
                    },
                    Mode::Insert => {
                        self.handle_insert_press(key);
                        EditorAction::Continue
                    },
                    Mode::Command => self.handle_command_press(key),
                }
            },
        }
    }
}

} // verus!
