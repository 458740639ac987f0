//! Character-level helpers shared by the buffer, the motions and the
//! renderer: the three-way character classification that word motions walk
//! over, the tab-expansion function that turns a raw line into its rendered
//! form, decimal formatting for the status bar, and conversion from string
//! slices to character vectors.

use vstd::prelude::*;

use crate::TAB_SZ;

verus! {

/// The three classes that word motions distinguish: a word is a maximal run
/// of characters of one class, and whitespace separates runs.
#[derive(Clone, Copy, PartialEq, Eq, Structural, Debug)]
pub enum CharClass {
    /// ASCII alphanumeric characters.
    Word,
    /// Any other character that is not whitespace.
    Punct,
    /// ASCII whitespace.
    Space,
}

/// Whether `c` is ASCII whitespace (space, tab, newline, carriage return,
/// form feed).
pub open spec fn is_space(c: char) -> bool {
    c == ' ' || c == '\t' || c == '\n' || c == '\r' || c == '\x0c'
}

/// Whether `c` is an ASCII letter or digit.
pub open spec fn is_word_char(c: char) -> bool {
    (48 <= c as u32 && c as u32 <= 57) || (65 <= c as u32 && c as u32 <= 90) || (97 <= c as u32
        && c as u32 <= 122)
}

/// The class of `c`.
pub open spec fn char_class(c: char) -> CharClass {
    if is_space(c) {
        CharClass::Space
    } else if is_word_char(c) {
        CharClass::Word
    } else {
        CharClass::Punct
    }
}

/// Runtime counterpart of [`char_class`].
pub fn class_of(c: char) -> (cls: CharClass)
    ensures
        cls == char_class(c),
{
    if c == ' ' || c == '\t' || c == '\n' || c == '\r' || c == '\x0c' {
        CharClass::Space
    } else {
        let u = c as u32;
        if (48 <= u && u <= 57) || (65 <= u && u <= 90) || (97 <= u && u <= 122) {
            CharClass::Word
        } else {
            CharClass::Punct
        }
    }
}

/// The first tab stop strictly beyond render column `n`: the next multiple
/// of [`TAB_SZ`] after `n`.
pub open spec fn tab_stop(n: int) -> int {
    (n / (TAB_SZ as int)) * (TAB_SZ as int) + (TAB_SZ as int)
}

/// A tab stop lies strictly beyond the column it is computed from, and at
/// most a full tab width beyond it.
pub proof fn lemma_tab_stop(n: int)
    requires
        n >= 0,
    ensures
        n < tab_stop(n) <= n + TAB_SZ,
{
    assert(n == (n / (TAB_SZ as int)) * (TAB_SZ as int) + n % (TAB_SZ as int)) by {
        vstd::arithmetic::div_mod::lemma_fundamental_div_mod(n, TAB_SZ as int);
    }
}

/// `n` spaces.
pub open spec fn spaces(n: int) -> Seq<char> {
    Seq::new(n as nat, |i: int| ' ')
}

/// One step of tab expansion: extend the rendered text to the next tab stop
/// with spaces (always at least one).
pub open spec fn pad_to_stop(acc: Seq<char>) -> Seq<char> {
    acc + spaces(tab_stop(acc.len() as int) - acc.len())
}

/// Tab-expand `raw`, appending to the already rendered prefix `acc`: each
/// tab becomes spaces up to the next multiple of [`TAB_SZ`] of the rendered
/// length, and every other character stands for itself.
pub open spec fn render_from(raw: Seq<char>, acc: Seq<char>) -> Seq<char>
    decreases raw.len(),
{
    if raw.len() == 0 {
        acc
    } else if raw[0] == '\t' {
        render_from(raw.skip(1), pad_to_stop(acc))
    } else {
        render_from(raw.skip(1), acc.push(raw[0]))
    }
}

/// The rendered form of a raw line.
pub open spec fn render_line(raw: Seq<char>) -> Seq<char> {
    render_from(raw, Seq::empty())
}

/// Rendering distributes over concatenation of the raw text.
pub proof fn lemma_render_append(s1: Seq<char>, s2: Seq<char>, acc: Seq<char>)
    ensures
        render_from(s1 + s2, acc) == render_from(s2, render_from(s1, acc)),
    decreases s1.len(),
{
    if s1.len() == 0 {
        assert(s1 + s2 =~= s2);
    } else {
        let rest = s1.skip(1);
        assert((s1 + s2).skip(1) =~= rest + s2);
        assert((s1 + s2)[0] == s1[0]);
        if s1[0] == '\t' {
            lemma_render_append(rest, s2, pad_to_stop(acc));
        } else {
            lemma_render_append(rest, s2, acc.push(s1[0]));
        }
    }
}

/// The already rendered prefix is kept: `render_from` only appends.
pub proof fn lemma_render_extends(raw: Seq<char>, acc: Seq<char>)
    ensures
        render_from(raw, acc).len() >= acc.len(),
        render_from(raw, acc).take(acc.len() as int) == acc,
    decreases raw.len(),
{
    if raw.len() == 0 {
        assert(render_from(raw, acc).take(acc.len() as int) =~= acc);
    } else {
        let acc2: Seq<char> = if raw[0] == '\t' {
            pad_to_stop(acc)
        } else {
            acc.push(raw[0])
        };
        if raw[0] == '\t' {
            lemma_tab_stop(acc.len() as int);
        }
        assert(acc2.len() > acc.len());
        lemma_render_extends(raw.skip(1), acc2);
        let whole = render_from(raw, acc);
        assert(whole == render_from(raw.skip(1), acc2));
        assert forall|j: int| 0 <= j < acc.len() implies whole[j] == acc[j] by {
            assert(whole.take(acc2.len() as int)[j] == acc2[j]);
            assert(acc2[j] == acc[j]);
        }
        assert(whole.take(acc.len() as int) =~= acc);
    }
}

/// Rendering a prefix of the raw text yields a prefix of the rendering of
/// the whole text; in particular rendered lengths are monotone.
pub proof fn lemma_render_prefix(raw: Seq<char>, i: int)
    requires
        0 <= i <= raw.len(),
    ensures
        render_line(raw) == render_from(raw.skip(i), render_line(raw.take(i))),
        render_line(raw).len() >= render_line(raw.take(i)).len(),
        render_line(raw).take(render_line(raw.take(i)).len() as int) == render_line(raw.take(i)),
{
    assert(raw.take(i) + raw.skip(i) =~= raw);
    lemma_render_append(raw.take(i), raw.skip(i), Seq::empty());
    lemma_render_extends(raw.skip(i), render_line(raw.take(i)));
}

/// Appending one raw character extends the rendered line by that character,
/// or by padding to the next tab stop when the character is a tab.
pub proof fn lemma_render_snoc(s: Seq<char>, c: char)
    ensures
        render_line(s.push(c)) == if c == '\t' {
            pad_to_stop(render_line(s))
        } else {
            render_line(s).push(c)
        },
{
    assert(s.push(c) =~= s + seq![c]);
    lemma_render_append(s, seq![c], Seq::empty());
    let acc = render_line(s);
    assert(seq![c].skip(1) =~= Seq::<char>::empty());
    if c == '\t' {
        assert(render_from(seq![c], acc) == render_from(seq![c].skip(1), pad_to_stop(acc)));
    } else {
        assert(render_from(seq![c], acc) == render_from(seq![c].skip(1), acc.push(c)));
    }
}

/// The character for the decimal digit `d`.
pub open spec fn digit_char(d: int) -> char {
    if d == 0 {
        '0'
    } else if d == 1 {
        '1'
    } else if d == 2 {
        '2'
    } else if d == 3 {
        '3'
    } else if d == 4 {
        '4'
    } else if d == 5 {
        '5'
    } else if d == 6 {
        '6'
    } else if d == 7 {
        '7'
    } else if d == 8 {
        '8'
    } else {
        '9'
    }
}

/// The decimal notation of `n >= 0`, most significant digit first, with no
/// leading zeroes (`0` itself is written `"0"`).
pub open spec fn dec_str(n: int) -> Seq<char>
    decreases n,
{
    if n < 10 {
        seq![digit_char(n)]
    } else {
        dec_str(n / 10).push(digit_char(n % 10))
    }
}

/// Runtime counterpart of [`digit_char`].
fn digit_char_of(d: usize) -> (c: char)
    requires
        d < 10,
    ensures
        c == digit_char(d as int),
{
    if d == 0 {
        '0'
    } else if d == 1 {
        '1'
    } else if d == 2 {
        '2'
    } else if d == 3 {
        '3'
    } else if d == 4 {
        '4'
    } else if d == 5 {
        '5'
    } else if d == 6 {
        '6'
    } else if d == 7 {
        '7'
    } else if d == 8 {
        '8'
    } else {
        '9'
    }
}

/// Append the decimal notation of `n` to `v`.
pub fn push_dec_usize(v: &mut Vec<char>, n: usize)
    ensures
        final(v)@ == old(v)@ + dec_str(n as int),
    decreases n,
{
    if n < 10 {
        v.push(digit_char_of(n));
        assert(v@ =~= old(v)@ + dec_str(n as int));
    } else {
        push_dec_usize(v, n / 10);
        v.push(digit_char_of(n % 10));
        assert(v@ =~= old(v)@ + dec_str(n as int));
    }
}

/// Append the decimal notation of `n` to `v`.
pub fn push_dec_u64(v: &mut Vec<char>, n: u64)
    ensures
        final(v)@ == old(v)@ + dec_str(n as int),
    decreases n,
{
    if n < 10 {
        v.push(digit_char_of((n % 10) as usize));
        assert(v@ =~= old(v)@ + dec_str(n as int));
    } else {
        push_dec_u64(v, n / 10);
        v.push(digit_char_of((n % 10) as usize));
        assert(v@ =~= old(v)@ + dec_str(n as int));
    }
}

/// The characters of `s`, one vector element per unicode scalar.
pub fn str_chars(s: &str) -> (v: Vec<char>)
    ensures
        v@ == s@,
{
    let n = s.unicode_len();
    let mut v: Vec<char> = Vec::new();
    let mut i: usize = 0;
    while i < n
        invariant
            n == s@.len(),
            0 <= i <= n,
            v@ == s@.take(i as int),
        decreases n - i,
    {
        v.push(s.get_char(i));
        i = i + 1;
        assert(v@ =~= s@.take(i as int));
    }
    assert(s@.take(n as int) =~= s@);
    v
}

/// Append the characters of `s` to `v`.
pub fn push_str_chars(v: &mut Vec<char>, s: &str)
    ensures
        final(v)@ == old(v)@ + s@,
{
    let n = s.unicode_len();
    let mut i: usize = 0;
    while i < n
        invariant
            n == s@.len(),
            0 <= i <= n,
            v@ == old(v)@ + s@.take(i as int),
        decreases n - i,
    {
        v.push(s.get_char(i));
        i = i + 1;
        assert(v@ =~= old(v)@ + s@.take(i as int));
    }
    assert(old(v)@ + s@.take(n as int) =~= old(v)@ + s@);
}

} // verus!
