//! A character grid with insert-style writes: writing over an occupied
//! cell shifts the rest of its row right, and a character pushed off the
//! row end cascades onto the start of the next row.

use vstd::prelude::*;

verus! {

broadcast use vstd::std_specs::vec::axiom_spec_len;

/// A cell position: column `x`, row `y`.
#[derive(Clone, Copy, PartialEq, Eq, Structural, Debug)]
pub struct Point {
    /// Column.
    pub x: usize,
    /// Row.
    pub y: usize,
}

/// A cell counts as occupied when it holds user text rather than one of
/// the background characters (space, row marker, prompt).
pub open spec fn occupied(c: char) -> bool {
    c != ' ' && c != '~' && c != ':'
}

/// Whether cell `i` is the start of some row after the first, in a grid
/// `w` wide with `h` rows.
pub open spec fn row_start_mark(i: int, w: int, h: int) -> bool {
    exists|k: int| 1 <= k < h && i == #[trigger] (k * w)
}

/// The initial grid contents: spaces, with a `~` marker in the first
/// column of every row but the first.
pub open spec fn grid_init(w: int, h: int) -> Seq<char> {
    Seq::new((w * h) as nat, |i: int| if row_start_mark(i, w, h) {
        '~'
    } else {
        ' '
    })
}

/// `chars` with the cells from `start` to `end` (inclusive) moved one cell
/// right; the cell at `start` keeps its old value and the old value of
/// `end` falls off.
pub open spec fn shift_right_seq(chars: Seq<char>, start: int, end: int) -> Seq<char> {
    Seq::new(chars.len(), |i: int| if start < i <= end {
        chars[i - 1]
    } else {
        chars[i]
    })
}

/// `chars` with the cells from `start` to `end` (inclusive) moved one cell
/// left; the cell at `end` becomes a space.
pub open spec fn shift_left_seq(chars: Seq<char>, start: int, end: int) -> Seq<char> {
    Seq::new(chars.len(), |i: int| if start <= i < end {
        chars[i + 1]
    } else if i == end {
        ' '
    } else {
        chars[i]
    })
}

/// The grid contents after writing `c` at `(x, y)`: an occupied target
/// cell first has its row shifted right (see [`spec_shift`]), then the
/// cell takes `c`.
pub open spec fn spec_set(chars: Seq<char>, w: int, h: int, x: int, y: int, c: char) -> Seq<char>
    decreases h - y, 1int,
{
    let i = y * w + x;
    let base = if occupied(chars[i]) {
        spec_shift(chars, w, h, x, y)
    } else {
        chars
    };
    base.update(i, c)
}

/// The grid contents after shifting row `y` right from column `x`: the
/// row's last character, unless a space or on the last row, cascades into
/// the first column of the row below.
pub open spec fn spec_shift(chars: Seq<char>, w: int, h: int, x: int, y: int) -> Seq<char>
    decreases h - y, 0int,
{
    let start = y * w + x;
    let end = (y + 1) * w - 1;
    let last = chars[end];
    let shifted = shift_right_seq(chars, start, end);
    if y + 1 < h && last != ' ' {
        spec_set(shifted, w, h, 0, y + 1, last)
    } else {
        shifted
    }
}

/// Index arithmetic inside a `w` by `h` grid stays inside it.
proof fn lemma_grid_index(x: int, y: int, w: int, h: int)
    requires
        0 <= x < w,
        0 <= y < h,
    ensures
        0 <= y * w + x < w * h,
        y * w + x <= (y + 1) * w - 1 < w * h,
{
    assert(0 <= y * w + x && y * w + x <= (y + 1) * w - 1 && (y + 1) * w - 1 < w * h)
        by (nonlinear_arith)
        requires
            0 <= x < w,
            0 <= y < h,
    ;
}

/// A screen-sized grid of characters.
pub struct Grid {
    /// Number of columns.
    pub width: usize,
    /// Number of rows.
    pub height: usize,
    /// The cells, row-major.
    pub chars: Vec<char>,
}

impl Grid {
    /// The cell vector covers exactly the grid.
    pub open spec fn wf(self) -> bool {
        self.chars@.len() == self.width * self.height
    }

    /// A fresh grid: spaces, with a `~` marker starting every row but the
    /// first.
    pub fn new(width: usize, height: usize) -> (g: Grid)
        requires
            width * height <= usize::MAX,
        ensures
            g.width == width,
            g.height == height,
            g.wf(),
            g.chars@ == grid_init(width as int, height as int),
    {
        let size = width * height;
        let mut chars: Vec<char> = vec![' '; size];
        assert(chars@ =~= Seq::new(size as nat, |i: int| ' '));
        let mut y: usize = 0;
        while y < height
            invariant
                0 <= y <= height,
                size == width * height,
                chars@.len() == size,
                forall|i: int|
                    0 <= i < size ==> chars@[i] == (if row_start_mark(i, width as int, y as int) {
                        '~'
                    } else {
                        ' '
                    }),
            decreases height - y,
        {
            proof {
                assert(y * width <= size) by (nonlinear_arith)
                    requires
                        0 <= y < height,
                        size == width * height,
                ;
            }
            let index = y * width;
            if index != 0 {
                proof {
                    assert(y * width < size) by (nonlinear_arith)
                        requires
                            0 <= y < height,
                            size == width * height,
                            y * width != 0,
                    ;
                }
                chars.set(index, '~');
                proof {
                    assert(1 <= y && index == y * width);
                    assert(row_start_mark(index as int, width as int, y + 1));
                    assert forall|i: int|
                        0 <= i < size && i != index implies (row_start_mark(
                        i,
                        width as int,
                        y + 1,
                    ) <==> row_start_mark(i, width as int, y as int)) by {
                        if row_start_mark(i, width as int, y + 1) {
                            let k = choose|k: int| 1 <= k < y + 1 && i == #[trigger] (k * width);
                            if k == y {
                                assert(i == index);
                            }
                            assert(k < y);
                            assert(row_start_mark(i, width as int, y as int));
                        }
                        if row_start_mark(i, width as int, y as int) {
                            let k = choose|k: int| 1 <= k < y && i == #[trigger] (k * width);
                            assert(1 <= k < y + 1);
                            assert(row_start_mark(i, width as int, y + 1));
                        }
                    }
                }
            } else {
                proof {
                    assert forall|i: int|
                        0 <= i < size implies (row_start_mark(i, width as int, y + 1)
                        <==> row_start_mark(i, width as int, y as int)) by {
                        if width == 0 {
                            assert(size == 0) by (nonlinear_arith)
                                requires
                                    size == width * height,
                                    width == 0,
                            ;
                        } else {
                            assert(y == 0) by (nonlinear_arith)
                                requires
                                    y * width == 0,
                                    width > 0,
                                    y >= 0,
                            ;
                            if row_start_mark(i, width as int, y + 1) {
                                let k = choose|k: int|
                                    1 <= k < y + 1 && i == #[trigger] (k * width);
                                assert(false);
                            }
                            if row_start_mark(i, width as int, y as int) {
                                let k = choose|k: int| 1 <= k < y && i == #[trigger] (k * width);
                                assert(false);
                            }
                        }
                    }
                }
            }
            y = y + 1;
        }
        let g = Grid { width, height, chars };
        proof {
            assert(g.chars@ =~= grid_init(width as int, height as int));
        }
        g
    }

    /// The row-major index of `p`.
    pub fn point_index(&self, p: &Point) -> (i: usize)
        requires
            self.wf(),
            p.x < self.width,
            p.y < self.height,
        ensures
            i == p.y * self.width + p.x,
            i < self.chars@.len(),
    {
        proof {
            lemma_grid_index(p.x as int, p.y as int, self.width as int, self.height as int);
        }
        let cap = self.chars.len();
        assert(p.y * self.width + p.x < cap);
        p.y * self.width + p.x
    }

    /// The character at `p`.
    pub fn get(&self, p: &Point) -> (c: &char)
        requires
            self.wf(),
            p.x < self.width,
            p.y < self.height,
        ensures
            *c == self.chars@[p.y * self.width + p.x],
    {
        let index = self.point_index(&p);
        &self.chars[index]
    }

    /// Write `c` at `p`, shifting the remainder of the row right (and
    /// cascading its last character onto the next row) when the target
    /// cell is occupied.
    pub fn set(&mut self, p: &Point, c: char)
        requires
            old(self).wf(),
            p.x < old(self).width,
            p.y < old(self).height,
        ensures
            final(self).width == old(self).width,
            final(self).height == old(self).height,
            final(self).wf(),
            final(self).chars@ == spec_set(
                old(self).chars@,
                old(self).width as int,
                old(self).height as int,
                p.x as int,
                p.y as int,
                c,
            ),
        decreases old(self).height - p.y, 1int,
    {
        let index = self.point_index(&p);
        let cur = self.chars[index];
        if cur != ' ' && cur != '~' && cur != ':' {
            self.shift_row_right(p);
        }
        let index = self.point_index(&p);
        self.chars.set(index, c);
    }

    /// Shift row `p.y` right from column `p.x`; the character pushed off
    /// the row end moves to the start of the next row unless it is a space
    /// or the row is the last.
    fn shift_row_right(&mut self, p: &Point)
        requires
            old(self).wf(),
            p.x < old(self).width,
            p.y < old(self).height,
        ensures
            final(self).width == old(self).width,
            final(self).height == old(self).height,
            final(self).wf(),
            final(self).chars@ == spec_shift(
                old(self).chars@,
                old(self).width as int,
                old(self).height as int,
                p.x as int,
                p.y as int,
            ),
        decreases old(self).height - p.y, 0int,
    {
        proof {
            lemma_grid_index(p.x as int, p.y as int, self.width as int, self.height as int);
        }
        let start = self.point_index(&p);
        let cap = self.chars.len();
        assert(1 <= (p.y + 1) * self.width <= cap);
        let end = (p.y + 1) * self.width - 1;
        let last_char = self.chars[end];
        let ghost c0 = self.chars@;

        let mut i: usize = end;
        while i > start
            invariant
                start <= i <= end < c0.len(),
                self.chars@.len() == c0.len(),
                self.width == old(self).width,
                self.height == old(self).height,
                forall|j: int| 0 <= j <= i ==> self.chars@[j] == c0[j],
                forall|j: int| i < j <= end ==> self.chars@[j] == c0[j - 1],
                forall|j: int| end < j < c0.len() ==> self.chars@[j] == c0[j],
            decreases i,
        {
            let prev = self.chars[i - 1];
            self.chars.set(i, prev);
            i = i - 1;
        }
        assert(self.chars@ =~= shift_right_seq(c0, start as int, end as int));

        if p.y + 1 < self.height && last_char != ' ' {
            self.set(&Point { x: 0, y: p.y + 1 }, last_char);
        }
    }

    /// Shift row `p.y` left from column `p.x`, blanking the row's last
    /// cell.
    fn shift_row_left(&mut self, p: &Point)
        requires
            old(self).wf(),
            p.x < old(self).width,
            p.y < old(self).height,
        ensures
            final(self).width == old(self).width,
            final(self).height == old(self).height,
            final(self).wf(),
            final(self).chars@ == shift_left_seq(
                old(self).chars@,
                p.y * old(self).width + p.x,
                (p.y + 1) * old(self).width - 1,
            ),
    {
        proof {
            lemma_grid_index(p.x as int, p.y as int, self.width as int, self.height as int);
        }
        let start = self.point_index(&p);
        let cap = self.chars.len();
        assert(1 <= (p.y + 1) * self.width <= cap);
        let end = (p.y + 1) * self.width - 1;
        let ghost c0 = self.chars@;

        let mut i: usize = start;
        while i < end
            invariant
                start <= i <= end < c0.len(),
                self.chars@.len() == c0.len(),
                self.width == old(self).width,
                self.height == old(self).height,
                forall|j: int| 0 <= j < start ==> self.chars@[j] == c0[j],
                forall|j: int| start <= j < i ==> self.chars@[j] == c0[j + 1],
                forall|j: int| i <= j < c0.len() ==> self.chars@[j] == c0[j],
            decreases end - i,
        {
            let next = self.chars[i + 1];
            self.chars.set(i, next);
            i = i + 1;
        }
        self.chars.set(end, ' ');
        assert(self.chars@ =~= shift_left_seq(c0, start as int, end as int));
    }

    /// Blank the cell at `p` and pull the rest of its row one cell left.
    pub fn clear_char(&mut self, p: &Point)
        requires
            old(self).wf(),
            p.x < old(self).width,
            p.y < old(self).height,
        ensures
            final(self).width == old(self).width,
            final(self).height == old(self).height,
            final(self).wf(),
            final(self).chars@ == shift_left_seq(
                old(self).chars@.update(p.y * old(self).width + p.x, ' '),
                p.y * old(self).width + p.x,
                (p.y + 1) * old(self).width - 1,
            ),
    {
        let index = self.point_index(&p);
        self.chars.set(index, ' ');
        self.shift_row_left(&p);
    }

    /// Rewrite row `y` to its initial state: a `~` marker in the first
    /// column and spaces after it, written cell by cell through
    /// [`Grid::set`]; rows out of range are left alone.
    pub fn clear_row(&mut self, y: usize)
        requires
            old(self).wf(),
        ensures
            final(self).width == old(self).width,
            final(self).height == old(self).height,
            final(self).wf(),
            y < old(self).height ==> final(self).chars@ == spec_clear_row(
                old(self).chars@,
                old(self).width as int,
                old(self).height as int,
                y as int,
                0,
            ),
            y >= old(self).height ==> *final(self) == *old(self),
    {
        if y < self.height {
            let mut x: usize = 0;
            while x < self.width
                invariant
                    0 <= x <= self.width,
                    y < self.height,
                    self.width == old(self).width,
                    self.height == old(self).height,
                    self.wf(),
                    spec_clear_row(
                        old(self).chars@,
                        self.width as int,
                        self.height as int,
                        y as int,
                        0,
                    ) == spec_clear_row(
                        self.chars@,
                        self.width as int,
                        self.height as int,
                        y as int,
                        x as int,
                    ),
                decreases self.width - x,
            {
                let c = if x == 0 {
                    '~'
                } else {
                    ' '
                };
                self.set(&Point { x, y }, c);
                x = x + 1;
            }
        }
    }
}

/// The grid contents after [`Grid::clear_row`] has rewritten row `y` from
/// column `x` on.
pub open spec fn spec_clear_row(chars: Seq<char>, w: int, h: int, y: int, x: int) -> Seq<char>
    decreases w - x,
{
    if x >= w {
        chars
    } else {
        spec_clear_row(
            spec_set(chars, w, h, x, y, if x == 0 {
                '~'
            } else {
                ' '
            }),
            w,
            h,
            y,
            x + 1,
        )
    }
}

} // verus!
