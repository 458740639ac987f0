//! The line buffer: an ordered, never-reordered sequence of lines, each
//! holding its raw text and a tab-expanded render cache that is recomputed
//! synchronously on every mutation.  The buffer also owns the optional file
//! association and the conversion between buffer contents and whole-file
//! text (join on newline for saving, split on newline for loading).

use vstd::prelude::*;

use crate::text::{lemma_render_snoc, pad_to_stop, push_str_chars, render_line, spaces};
use crate::TAB_SZ;

verus! {

/// One buffer line: raw text plus its rendered (tab-expanded) form.
pub struct ERow {
    /// The raw text of the line, one element per unicode scalar.
    pub raw: Vec<char>,
    /// The rendered text: `raw` with tabs expanded to the next multiple of
    /// [`TAB_SZ`].
    pub render: Vec<char>,
}

impl ERow {
    /// The render cache agrees with the raw text.
    pub open spec fn wf(self) -> bool {
        self.render@ == render_line(self.raw@)
    }

    /// A new line over `raw`, rendered.
    pub fn new(raw: Vec<char>) -> (row: ERow)
        ensures
            row.raw@ == raw@,
            row.wf(),
    {
        let mut row = ERow { raw, render: Vec::new() };
        row.render();
        row
    }

    /// Insert `c` at character position `i`.
    pub fn insert(&mut self, i: usize, c: char)
        requires
            i <= old(self).raw@.len(),
        ensures
            final(self).raw@ == old(self).raw@.insert(i as int, c),
            final(self).wf(),
    {
        self.raw.insert(i, c);
        self.render();
    }

    /// Append the characters of `s`.
    pub fn push_str(&mut self, s: &str)
        ensures
            final(self).raw@ == old(self).raw@ + s@,
            final(self).wf(),
    {
        push_str_chars(&mut self.raw, s);
        self.render();
    }

    /// Append the characters of `other`.
    pub fn push_chars(&mut self, other: &Vec<char>)
        ensures
            final(self).raw@ == old(self).raw@ + other@,
            final(self).wf(),
    {
        let n = other.len();
        let mut i: usize = 0;
        while i < n
            invariant
                n == other@.len(),
                0 <= i <= n,
                self.raw@ == old(self).raw@ + other@.take(i as int),
                self.render == old(self).render,
            decreases n - i,
        {
            self.raw.push(other[i]);
            i = i + 1;
            assert(self.raw@ =~= old(self).raw@ + other@.take(i as int));
        }
        assert(old(self).raw@ + other@.take(n as int) =~= old(self).raw@ + other@);
        self.render();
    }

    /// Empty the line.
    pub fn clear(&mut self)
        ensures
            final(self).raw@ == Seq::<char>::empty(),
            final(self).wf(),
    {
        self.raw.clear();
        self.render();
    }

    /// Remove the character at position `i`.
    pub fn delete_char(&mut self, i: usize)
        requires
            i < old(self).raw@.len(),
        ensures
            final(self).raw@ == old(self).raw@.remove(i as int),
            final(self).wf(),
    {
        self.raw.remove(i);
        self.render();
    }

    /// Recompute the render cache from the raw text.
    pub fn render(&mut self)
        ensures
            final(self).raw == old(self).raw,
            final(self).wf(),
    {
        let n = self.raw.len();
        let mut out: Vec<char> = Vec::new();
        let mut i: usize = 0;
        while i < n
            invariant
                n == self.raw@.len(),
                0 <= i <= n,
                self.raw == old(self).raw,
                self.render == old(self).render,
                out@ == render_line(self.raw@.take(i as int)),
            decreases n - i,
        {
            let c = self.raw[i];
            proof {
                assert(self.raw@.take(i + 1) =~= self.raw@.take(i as int).push(c));
                lemma_render_snoc(self.raw@.take(i as int), c);
            }
            if c == '\t' {
                let ghost acc = out@;
                let r = out.len() % TAB_SZ;
                let pad = TAB_SZ - r;
                let mut k: usize = 0;
                while k < pad
                    invariant
                        0 <= k <= pad,
                        out@ == acc + spaces(k as int),
                    decreases pad - k,
                {
                    out.push(' ');
                    k = k + 1;
                    assert(out@ =~= acc + spaces(k as int));
                }
                proof {
                    vstd::arithmetic::div_mod::lemma_fundamental_div_mod(
                        acc.len() as int,
                        TAB_SZ as int,
                    );
                    assert(out@ =~= pad_to_stop(acc));
                }
            } else {
                out.push(c);
            }
            i = i + 1;
        }
        assert(self.raw@.take(n as int) =~= self.raw@);
        self.render = out;
    }
}

/// The whole-file text of a buffer: the lines joined by single newline
/// separators, with no trailing newline beyond what separators imply.
pub open spec fn join_lines(lines: Seq<Seq<char>>) -> Seq<char>
    decreases lines.len(),
{
    if lines.len() == 0 {
        Seq::empty()
    } else if lines.len() == 1 {
        lines[0]
    } else {
        lines[0] + seq!['\n'] + join_lines(lines.skip(1))
    }
}

/// Drop one trailing carriage return, so that files with `"\r\n"` line
/// terminators load like files with `"\n"` ones.
pub open spec fn strip_cr(s: Seq<char>) -> Seq<char> {
    if s.len() > 0 && s.last() == '\r' {
        s.drop_last()
    } else {
        s
    }
}

/// Split the remaining text `s` into lines, `cur` being the part of the
/// current line read so far: every newline ends a line (so text with `n`
/// newlines yields `n + 1` lines, and empty text yields one empty line),
/// and a carriage return just before a newline is dropped.
pub open spec fn split_acc(s: Seq<char>, cur: Seq<char>) -> Seq<Seq<char>>
    decreases s.len(),
{
    if s.len() == 0 {
        seq![cur]
    } else if s[0] == '\n' {
        seq![strip_cr(cur)] + split_acc(s.skip(1), Seq::empty())
    } else {
        split_acc(s.skip(1), cur.push(s[0]))
    }
}

/// The lines of the whole-file text `s`.
pub open spec fn split_lines(s: Seq<char>) -> Seq<Seq<char>> {
    split_acc(s, Seq::empty())
}

/// Joining one more line appends a separator and the line.
pub proof fn lemma_join_snoc(lines: Seq<Seq<char>>, l: Seq<char>)
    ensures
        join_lines(lines.push(l)) == if lines.len() == 0 {
            l
        } else {
            join_lines(lines) + seq!['\n'] + l
        },
    decreases lines.len(),
{
    if lines.len() == 0 {
        assert(lines.push(l) =~= seq![l]);
        assert(join_lines(seq![l]) == l);
    } else if lines.len() == 1 {
        assert(lines.push(l).skip(1) =~= seq![l]);
        assert(lines.push(l)[0] == lines[0]);
        assert(join_lines(seq![l]) == l);
    } else {
        assert(lines.push(l).skip(1) =~= lines.skip(1).push(l));
        assert(lines.push(l)[0] == lines[0]);
        lemma_join_snoc(lines.skip(1), l);
        assert(lines[0] + seq!['\n'] + (join_lines(lines.skip(1)) + seq!['\n'] + l) =~= (lines[0]
            + seq!['\n'] + join_lines(lines.skip(1))) + seq!['\n'] + l);
    }
}

/// Splitting walks straight through a stretch of text that holds no
/// newline: it all lands in the current line.
pub proof fn lemma_split_through(l: Seq<char>, t: Seq<char>, cur: Seq<char>)
    requires
        !l.contains('\n'),
    ensures
        split_acc(l + t, cur) == split_acc(t, cur + l),
    decreases l.len(),
{
    if l.len() == 0 {
        assert(l + t =~= t);
        assert(cur + l =~= cur);
    } else {
        assert(l[0] != '\n') by {
            assert(0 <= 0 < l.len() && l[0] == l[0]);
        }
        assert((l + t)[0] == l[0]);
        assert((l + t).skip(1) =~= l.skip(1) + t);
        assert(!l.skip(1).contains('\n')) by {
            if l.skip(1).contains('\n') {
                let j = choose|j: int| 0 <= j < l.skip(1).len() && l.skip(1)[j] == '\n';
                assert(l[j + 1] == '\n');
            }
        }
        lemma_split_through(l.skip(1), t, cur.push(l[0]));
        assert(cur.push(l[0]) + l.skip(1) =~= cur + l);
    }
}

/// Saving and loading are inverse: splitting the joined text of any
/// non-empty sequence of lines, none containing a newline and none ending
/// in a carriage return, yields the lines again.
pub proof fn lemma_save_load_round_trip(lines: Seq<Seq<char>>)
    requires
        lines.len() >= 1,
        forall|i: int| 0 <= i < lines.len() ==> !(#[trigger] lines[i]).contains('\n'),
        forall|i: int|
            0 <= i < lines.len() ==> (#[trigger] lines[i]).len() == 0 || lines[i].last() != '\r',
    ensures
        split_lines(join_lines(lines)) == lines,
    decreases lines.len(),
{
    if lines.len() == 1 {
        lemma_split_through(lines[0], Seq::empty(), Seq::empty());
        assert(lines[0] + Seq::<char>::empty() =~= lines[0]);
        assert(Seq::<char>::empty() + lines[0] =~= lines[0]);
        assert(split_lines(join_lines(lines)) =~= lines);
    } else {
        let l0 = lines[0];
        let rest = join_lines(lines.skip(1));
        assert(join_lines(lines) =~= l0 + (seq!['\n'] + rest));
        lemma_split_through(l0, seq!['\n'] + rest, Seq::empty());
        assert(Seq::<char>::empty() + l0 =~= l0);
        assert((seq!['\n'] + rest)[0] == '\n');
        assert((seq!['\n'] + rest).skip(1) =~= rest);
        assert(strip_cr(l0) == l0);
        assert(forall|i: int|
            0 <= i < lines.skip(1).len() ==> !(#[trigger] lines.skip(1)[i]).contains('\n'));
        assert(forall|i: int|
            0 <= i < lines.skip(1).len() ==> (#[trigger] lines.skip(1)[i]).len() == 0
                || lines.skip(1)[i].last() != '\r');
        lemma_save_load_round_trip(lines.skip(1));
        assert(split_lines(join_lines(lines)) =~= seq![l0] + lines.skip(1));
        assert(seq![l0] + lines.skip(1) =~= lines);
    }
}

/// The ordered sequence of lines of the open document, with its optional
/// file association.
pub struct EditorRows {
    /// The lines, in document order; mutate through the methods so the
    /// render caches stay consistent.
    pub rows: Vec<ERow>,
    /// The path the buffer saves to, as characters; `None` marks an
    /// unsaved, new buffer.
    pub filename: Option<Vec<char>>,
}

/// The raw contents of a sequence of lines, in order.
pub open spec fn raws_of(rows: Seq<ERow>) -> Seq<Seq<char>> {
    rows.map_values(|r: ERow| r.raw@)
}

impl EditorRows {
    /// The raw contents of the lines, in document order.
    pub open spec fn raws(self) -> Seq<Seq<char>> {
        raws_of(self.rows@)
    }

    /// Every line's render cache agrees with its raw text.
    pub open spec fn wf(self) -> bool {
        forall|i: int| #![auto] 0 <= i < self.rows@.len() ==> self.rows@[i].wf()
    }

    /// A new buffer: one empty line, no file association.
    pub fn new() -> (rows: EditorRows)
        ensures
            rows.raws() =~= seq![Seq::<char>::empty()],
            rows.wf(),
            rows.filename is None,
    {
        let first = ERow::new(Vec::new());
        let mut v: Vec<ERow> = Vec::new();
        v.push(first);
        EditorRows { rows: v, filename: None }
    }

    /// Associate (or reassign) the path the buffer saves to.
    pub fn set_filename(&mut self, name: &str)
        ensures
            final(self).filename matches Some(n) && n@ == name@,
            final(self).rows == old(self).rows,
    {
        self.filename = Some(crate::text::str_chars(name));
    }

    /// Associate the path the buffer saves to, from already collected
    /// characters.
    pub fn set_filename_chars(&mut self, name: Vec<char>)
        ensures
            final(self).filename matches Some(n) && n@ == name@,
            final(self).rows == old(self).rows,
    {
        self.filename = Some(name);
    }

    /// Insert a new line holding `raw` at position `i`, shifting later lines
    /// down; `i` may equal the line count (append).
    pub fn insert_erow(&mut self, i: usize, raw: Vec<char>)
        requires
            i <= old(self).raws().len(),
        ensures
            final(self).raws() =~= old(self).raws().insert(i as int, raw@),
            old(self).wf() ==> final(self).wf(),
            final(self).filename == old(self).filename,
    {
        let row = ERow::new(raw);
        self.rows.insert(i, row);
    }

    /// Remove line `i`; out-of-range positions leave the buffer unchanged.
    pub fn delete_erow(&mut self, i: usize)
        ensures
            i < old(self).raws().len() ==> final(self).raws() =~= old(self).raws().remove(i as int),
            i >= old(self).raws().len() ==> *final(self) == *old(self),
            old(self).wf() ==> final(self).wf(),
            final(self).filename == old(self).filename,
    {
        if i < self.rows.len() {
            self.rows.remove(i);
        }
    }

    /// Empty line `i`; out-of-range positions leave the buffer unchanged.
    pub fn clear_erow(&mut self, i: usize)
        ensures
            i < old(self).raws().len() ==> final(self).raws() =~= old(self).raws().update(
                i as int,
                Seq::<char>::empty(),
            ),
            i >= old(self).raws().len() ==> *final(self) == *old(self),
            old(self).wf() ==> final(self).wf(),
            final(self).filename == old(self).filename,
    {
        if i < self.rows.len() {
            let mut row = self.rows.remove(i);
            row.clear();
            self.rows.insert(i, row);
            proof {
                assert(self.rows@ =~= old(self).rows@.update(i as int, self.rows@[i as int]));
            }
        }
    }

    /// Append line `i`'s raw text to line `i - 1` and remove line `i`.
    pub fn join_adj_erows(&mut self, i: usize)
        requires
            1 <= i < old(self).raws().len(),
        ensures
            final(self).raws() =~= old(self).raws().update(
                i - 1,
                old(self).raws()[i - 1] + old(self).raws()[i as int],
            ).remove(i as int),
            old(self).wf() ==> final(self).wf(),
            final(self).filename == old(self).filename,
    {
        let curr = self.rows.remove(i);
        let mut prev = self.rows.remove(i - 1);
        prev.push_chars(&curr.raw);
        self.rows.insert(i - 1, prev);
    }

    /// The raw text of line `i`.
    pub fn get_raw(&self, i: usize) -> (raw: &Vec<char>)
        requires
            i < self.raws().len(),
        ensures
            raw@ == self.raws()[i as int],
    {
        &self.rows[i].raw
    }

    /// The rendered text of line `i`.
    pub fn get_render(&self, i: usize) -> (render: &Vec<char>)
        requires
            i < self.raws().len(),
            self.wf(),
        ensures
            render@ == render_line(self.raws()[i as int]),
    {
        &self.rows[i].render
    }

    /// A mutable borrow of line `i`.
    pub fn get_erow_mut(&mut self, i: usize) -> (row: &mut ERow)
        requires
            i < old(self).raws().len(),
        ensures
            *row == old(self).rows@[i as int],
            final(self).rows@ == old(self).rows@.update(i as int, *final(row)),
            final(self).filename == old(self).filename,
    {
        &mut self.rows[i]
    }

    /// All lines.
    pub fn get_erows(&self) -> (rows: &Vec<ERow>)
        ensures
            rows == self.rows,
    {
        &self.rows
    }

    /// The number of lines.
    pub fn num_rows(&self) -> (n: usize)
        ensures
            n == self.raws().len(),
    {
        self.rows.len()
    }

    /// The whole-file text of the buffer: the lines joined by single
    /// newlines.  Its length is the byte count a save of ASCII text writes.
    pub fn serialize(&self) -> (out: Vec<char>)
        ensures
            out@ == join_lines(self.raws()),
    {
        let n = self.rows.len();
        let mut out: Vec<char> = Vec::new();
        let mut i: usize = 0;
        while i < n
            invariant
                n == self.raws().len(),
                0 <= i <= n,
                out@ == join_lines(self.raws().take(i as int)),
            decreases n - i,
        {
            let ghost pre = out@;
            let ghost sep: Seq<char> = if i > 0 {
                seq!['\n']
            } else {
                Seq::empty()
            };
            if i > 0 {
                out.push('\n');
            }
            let row = &self.rows[i];
            let m = row.raw.len();
            let mut j: usize = 0;
            assert(out@ =~= pre + sep + self.raws()[i as int].take(0));
            while j < m
                invariant
                    0 <= j <= m,
                    i < self.raws().len(),
                    row.raw@ == self.raws()[i as int],
                    m == self.raws()[i as int].len(),
                    out@ == pre + sep + self.raws()[i as int].take(j as int),
                decreases m - j,
            {
                out.push(row.raw[j]);
                j = j + 1;
                assert(out@ =~= pre + sep + self.raws()[i as int].take(j as int));
            }
            proof {
                assert(self.raws().take(i as int).push(self.raws()[i as int]) =~= self.raws().take(
                    i + 1,
                ));
                lemma_join_snoc(self.raws().take(i as int), self.raws()[i as int]);
                assert(self.raws()[i as int].take(m as int) =~= self.raws()[i as int]);
                assert(out@ =~= join_lines(self.raws().take(i + 1)));
            }
            i = i + 1;
        }
        assert(self.raws().take(n as int) =~= self.raws());
        out
    }

    /// A buffer loaded from whole-file text: one line per newline-separated
    /// stretch (empty text yields one empty line), carriage returns before
    /// newlines dropped, and no file association yet.
    pub fn from_content(content: &Vec<char>) -> (rows: EditorRows)
        ensures
            rows.raws() == split_lines(content@),
            rows.wf(),
            rows.raws().len() >= 1,
            rows.filename is None,
    {
        let n = content.len();
        let mut rows: Vec<ERow> = Vec::new();
        let mut cur: Vec<char> = Vec::new();
        let mut i: usize = 0;
        proof {
            assert(content@.skip(0) =~= content@);
            assert(raws_of(rows@) + split_acc(content@, Seq::empty()) =~= split_acc(
                content@,
                Seq::empty(),
            ));
        }
        while i < n
            invariant
                n == content@.len(),
                0 <= i <= n,
                split_lines(content@) == raws_of(rows@) + split_acc(
                    content@.skip(i as int),
                    cur@,
                ),
                forall|k: int| #![auto] 0 <= k < rows@.len() ==> rows@[k].wf(),
            decreases n - i,
        {
            let c = content[i];
            proof {
                assert(content@.skip(i as int)[0] == content@[i as int]);
                assert(content@.skip(i as int).skip(1) =~= content@.skip(i + 1));
            }
            if c == '\n' {
                let ghost cur0 = cur@;
                let ghost prevmap = raws_of(rows@);
                if cur.len() > 0 && cur[cur.len() - 1] == '\r' {
                    cur.pop();
                }
                assert(cur@ == strip_cr(cur0));
                let line = cur;
                cur = Vec::new();
                let row = ERow::new(line);
                rows.push(row);
                proof {
                    assert(raws_of(rows@) =~= prevmap.push(strip_cr(cur0)));
                    assert(prevmap.push(strip_cr(cur0)) + split_acc(
                        content@.skip(i + 1),
                        Seq::empty(),
                    ) =~= prevmap + (seq![strip_cr(cur0)] + split_acc(
                        content@.skip(i + 1),
                        Seq::empty(),
                    )));
                }
            } else {
                cur.push(c);
            }
            i = i + 1;
        }
        assert(content@.skip(n as int) =~= Seq::<char>::empty());
        let ghost prevmap = raws_of(rows@);
        let ghost curfin = cur@;
        let row = ERow::new(cur);
        rows.push(row);
        let out = EditorRows { rows, filename: None };
        proof {
            assert(out.raws() =~= prevmap.push(curfin));
            assert(prevmap.push(curfin) =~= prevmap + seq![curfin]);
            assert(out.raws() =~= split_lines(content@));
        }
        out
    }
}

} // verus!
