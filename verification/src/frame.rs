//! The frame buffer as a mathematical value: what is on the terminal, what
//! should be there, and what bringing the two in line sends.

use vstd::arithmetic::div_mod::{lemma_fundamental_div_mod, lemma_fundamental_div_mod_converse};
use vstd::prelude::*;
use crate::cell::{Char, TextAttr};
use crate::stream::Pen;
use crate::x1b::RGB;

verus! {

/// The state of a frame buffer.
///
/// `committed` is the grid that the terminal is taken to show, row after
/// row. `pending` holds the cells that may differ from it, by index, with
/// the value that each should get. `pen` is what the terminal is taken to
/// be at.
pub struct Frame<TColor: RGB> {
    pub w: u16,
    pub h: u16,
    pub committed: Seq<Char<TColor>>,
    pub pending: Map<u32, Char<TColor>>,
    pub pen: Pen<TColor>,
}

impl<TColor: RGB> Frame<TColor> {
    /// The number of cells.
    pub open spec fn size(self) -> nat {
        self.w as nat * self.h as nat
    }

    /// The grid has `size` cells and every pending index names one of them.
    pub open spec fn wf(self) -> bool {
        &&& self.committed.len() == self.size()
        &&& forall|k: u32| self.pending.contains_key(k) ==> (k as nat) < self.size()
    }

    /// Whether `(x, y)` is a cell of the grid.
    pub open spec fn inside(self, x: int, y: int) -> bool {
        0 <= x < self.w && 0 <= y < self.h
    }

    /// The index of the cell in column `x` of row `y`.
    pub open spec fn index(self, x: int, y: int) -> u32 {
        (x + y * self.w) as u32
    }

    /// The column of the cell with index `i`.
    pub open spec fn col(self, i: nat) -> u16 {
        (i % (self.w as nat)) as u16
    }

    /// The row of the cell with index `i`.
    pub open spec fn row(self, i: nat) -> u16 {
        (i / (self.w as nat)) as u16
    }

    /// The value that the cell with index `i` should get: the pending one
    /// where there is one, else what is committed.
    pub open spec fn want(self, i: int) -> Char<TColor> {
        if self.pending.contains_key(i as u32) {
            self.pending[i as u32]
        } else {
            self.committed[i]
        }
    }

    /// The grid that the terminal should show.
    pub open spec fn desired(self) -> Seq<Char<TColor>> {
        Seq::new(self.committed.len(), |i: int| self.want(i))
    }

    /// The frame after the cell with index `idx` was set to `tc`. Setting a
    /// cell to what is committed, while nothing is pending for it, changes
    /// nothing; any other value becomes the pending one.
    pub open spec fn set_idx(self, idx: u32, tc: Char<TColor>) -> Self {
        if self.pending.contains_key(idx) || self.committed[idx as int] != tc {
            Frame { pending: self.pending.insert(idx, tc), ..self }
        } else {
            self
        }
    }

    /// The frame after the cell at `(x, y)` was set to `tc`; a position
    /// outside the grid changes nothing.
    pub open spec fn set(self, x: int, y: int, tc: Char<TColor>) -> Self {
        if self.inside(x, y) {
            self.set_idx(self.index(x, y), tc)
        } else {
            self
        }
    }

    /// The frame after each of the first `n` cells was set to `tc`.
    pub open spec fn cleared_upto(self, tc: Char<TColor>, n: nat) -> Self {
        Frame {
            pending: Map::new(
                |k: u32|
                    self.pending.contains_key(k) || ((k as nat) < n && self.committed[k as int]
                        != tc),
                |k: u32|
                    if (k as nat) < n {
                        tc
                    } else {
                        self.pending[k]
                    },
            ),
            ..self
        }
    }

    /// The frame after every cell was set to `tc`.
    pub open spec fn cleared(self, tc: Char<TColor>) -> Self {
        self.cleared_upto(tc, self.size())
    }

    /// Whether a refresh writes the cell with index `i`: something is
    /// pending for it that differs from what is committed.
    pub open spec fn dirty(self, i: nat) -> bool {
        self.pending.contains_key(i as u32) && self.pending[i as u32] != self.committed[i as int]
    }

    /// The pen after a refresh has handled the cells with an index below
    /// `k`, in the order of their indices, which is row after row.
    pub open spec fn pen_upto(self, k: nat) -> Pen<TColor>
        decreases k,
    {
        if k == 0 {
            self.pen
        } else {
            let i = (k - 1) as nat;
            let p = self.pen_upto(i);
            if self.dirty(i) {
                p.after_cell(self.col(i), self.row(i), self.pending[i as u32])
            } else {
                p
            }
        }
    }

    /// What a refresh sends for the cells with an index below `k`.
    pub open spec fn code_upto(self, k: nat) -> Seq<u8>
        decreases k,
    {
        if k == 0 {
            Seq::empty()
        } else {
            let i = (k - 1) as nat;
            let p = self.pen_upto(i);
            if self.dirty(i) {
                self.code_upto(i) + p.cell_code(self.col(i), self.row(i), self.pending[i as u32])
            } else {
                self.code_upto(i)
            }
        }
    }

    /// What a refresh sends.
    pub open spec fn refresh_code(self) -> Seq<u8> {
        self.code_upto(self.size())
    }

    /// The frame after a refresh: the desired grid is committed and nothing
    /// is pending.
    pub open spec fn refreshed(self) -> Self {
        Frame {
            committed: self.desired(),
            pending: Map::empty(),
            pen: self.pen_upto(self.size()),
            ..self
        }
    }

    /// The frame after a refresh that lets the cells fall back to `fill`:
    /// the desired grid is committed, and each cell that was pending with
    /// another value than `fill` is pending with `fill` now.
    pub open spec fn decayed(self, fill: Char<TColor>) -> Self {
        Frame {
            committed: self.desired(),
            pending: Map::new(
                |k: u32| self.pending.contains_key(k) && self.pending[k] != fill,
                |k: u32| fill,
            ),
            pen: self.pen_upto(self.size()),
            ..self
        }
    }

    /// The pending cells of `decayed` as far as the indices below `bound`
    /// are concerned: those keep only what differs from `fill`, and hold
    /// `fill`; the others are as before.
    pub open spec fn decayed_upto(self, fill: Char<TColor>, bound: nat) -> Map<u32, Char<TColor>> {
        Map::new(
            |k: u32| self.pending.contains_key(k) && ((k as nat) >= bound || self.pending[k] != fill),
            |k: u32|
                if (k as nat) < bound {
                    fill
                } else {
                    self.pending[k]
                },
        )
    }

    /// The frame after the text `s` was put into row `y` from column `x`
    /// on, one cell for each character, whatever the character is. Cells
    /// outside the grid are passed over.
    pub open spec fn printed_nows(
        self,
        x: int,
        y: int,
        s: Seq<char>,
        ta: TextAttr,
        fg: TColor,
        bg: TColor,
    ) -> Self
        decreases s.len(),
    {
        if s.len() == 0 {
            self
        } else {
            self.printed_nows(x, y, s.drop_last(), ta, fg, bg).set(
                x + s.len() - 1,
                y,
                Char { ch: s.last(), attr: ta, fg, bg },
            )
        }
    }

    /// The column, counted from the column that the text starts in, at
    /// which `print` stands after the text `s`. A line feed and a carriage
    /// return lead back to 0, a tab at 0 leads to 4 and changes nothing
    /// elsewhere, any other character leads one column further.
    pub open spec fn print_col(s: Seq<char>) -> int
        decreases s.len(),
    {
        if s.len() == 0 {
            0
        } else {
            let before = Self::print_col(s.drop_last());
            let c = s.last();
            if c == '\n' || c == '\r' {
                0
            } else if c == '\t' {
                if before == 0 {
                    4
                } else {
                    before
                }
            } else {
                before + 1
            }
        }
    }

    /// The row, counted from the row that the text starts in, at which
    /// `print` stands after the text `s`: the number of line feeds.
    pub open spec fn print_row(s: Seq<char>) -> int
        decreases s.len(),
    {
        if s.len() == 0 {
            0
        } else {
            let before = Self::print_row(s.drop_last());
            if s.last() == '\n' {
                before + 1
            } else {
                before
            }
        }
    }

    /// The frame after the text `s` was printed from `(x, y)` on. A line
    /// feed leads to the start of the next row and a carriage return to
    /// the start of the same row, where the start is column `x`. A tab at
    /// the start of a row stands for four spaces; elsewhere it puts
    /// nothing. Any other character is put into its cell. Cells outside the
    /// grid are passed over.
    pub open spec fn printed(
        self,
        x: int,
        y: int,
        s: Seq<char>,
        ta: TextAttr,
        fg: TColor,
        bg: TColor,
    ) -> Self
        decreases s.len(),
    {
        if s.len() == 0 {
            self
        } else {
            let f = self.printed(x, y, s.drop_last(), ta, fg, bg);
            let xx = Self::print_col(s.drop_last());
            let yy = Self::print_row(s.drop_last());
            let c = s.last();
            let space = Char { ch: ' ', attr: ta, fg, bg };
            if c == '\n' || c == '\r' {
                f
            } else if c == '\t' {
                if xx == 0 {
                    f.set(x, y + yy, space).set(x + 1, y + yy, space).set(x + 2, y + yy, space).set(
                        x + 3,
                        y + yy,
                        space,
                    )
                } else {
                    f
                }
            } else {
                f.set(x + xx, y + yy, Char { ch: c, attr: ta, fg, bg })
            }
        }
    }

    /// Setting no cell changes nothing.
    pub proof fn lemma_cleared_none(self, tc: Char<TColor>)
        ensures
            self.cleared_upto(tc, 0) == self,
    {
        assert(self.cleared_upto(tc, 0).pending =~= self.pending);
    }

    /// Setting the first `n + 1` cells is setting the first `n` and then
    /// the cell with index `n`.
    pub proof fn lemma_cleared_step(self, tc: Char<TColor>, n: nat)
        requires
            n < self.size() <= u32::MAX,
        ensures
            self.cleared_upto(tc, n + 1) == self.cleared_upto(tc, n).set_idx(n as u32, tc),
    {
        assert(self.cleared_upto(tc, n + 1).pending =~= self.cleared_upto(tc, n).set_idx(
            n as u32,
            tc,
        ).pending);
    }

    /// The cell with index `i` lies in column `col(i)` of row `row(i)`,
    /// which is a position of the grid.
    pub proof fn lemma_col_row(self, i: nat)
        requires
            i < self.size(),
        ensures
            self.inside(self.col(i) as int, self.row(i) as int),
            self.index(self.col(i) as int, self.row(i) as int) == i,
            self.col(i) == i % (self.w as nat),
            self.row(i) == i / (self.w as nat),
    {
        let w = self.w as nat;
        let h = self.h as nat;
        assert(w > 0) by (nonlinear_arith)
            requires
                i < w * h,
        ;
        assert(i / w < h) by (nonlinear_arith)
            requires
                i < w * h,
                w > 0,
        ;
        assert(i == w * (i / w) + i % w && 0 <= i % w < w) by (nonlinear_arith)
            requires
                w > 0,
        ;
        assert((i / w) * w == w * (i / w)) by (nonlinear_arith);
        assert(w * h <= 65535 * 65535) by (nonlinear_arith)
            requires
                w <= 65535,
                h <= 65535,
        ;
    }

    /// What is not pending is desired as it is committed.
    pub proof fn lemma_desired_elsewhere(self, i: int)
        requires
            self.wf(),
            0 <= i < self.size(),
            !self.pending.contains_key(i as u32),
        ensures
            self.desired()[i] == self.committed[i],
    {
    }

    /// Setting a cell keeps the frame well formed.
    pub proof fn lemma_set_wf(self, x: int, y: int, tc: Char<TColor>)
        requires
            self.wf(),
        ensures
            self.set(x, y, tc).wf(),
    {
        if self.inside(x, y) {
            let w = self.w as int;
            let h = self.h as int;
            assert(x + y * w < w * h) by (nonlinear_arith)
                requires
                    0 <= x < w,
                    0 <= y < h,
            ;
            assert(0 <= x + y * w) by (nonlinear_arith)
                requires
                    0 <= x,
                    0 <= y,
                    0 <= w,
            ;
            assert(w * h <= 65535 * 65535) by (nonlinear_arith)
                requires
                    0 <= w <= 65535,
                    0 <= h <= 65535,
            ;
        }
    }

    /// Setting a cell makes its value the desired one there and leaves what
    /// is desired elsewhere, and what is committed, as it was.
    pub proof fn lemma_set_desired(self, x: int, y: int, tc: Char<TColor>)
        requires
            self.wf(),
            self.inside(x, y),
        ensures
            self.set(x, y, tc).committed == self.committed,
            self.set(x, y, tc).desired() == self.desired().update(self.index(x, y) as int, tc),
    {
        self.lemma_size_bound();
        let w = self.w as int;
        assert(0 <= x + y * w < w * self.h) by (nonlinear_arith)
            requires
                0 <= x < w,
                0 <= y < self.h,
        ;
    }

    /// After clearing, the value is desired in every cell.
    pub proof fn lemma_cleared_desired(self, tc: Char<TColor>)
        requires
            self.wf(),
        ensures
            self.cleared(tc).committed == self.committed,
            self.cleared(tc).desired() == Seq::new(self.size(), |i: int| tc),
    {
        self.lemma_size_bound();
    }

    /// Setting a cell twice to the same value is setting it once. It makes
    /// no other cell pending, and where the value is the committed one and
    /// the cell was not pending before, it is not pending after.
    pub proof fn lemma_set_twice(self, x: int, y: int, tc: Char<TColor>)
        requires
            self.wf(),
        ensures
            self.set(x, y, tc).set(x, y, tc) == self.set(x, y, tc),
            forall|k: u32|
                self.set(x, y, tc).set(x, y, tc).pending.contains_key(k)
                    ==> self.pending.contains_key(k) || (self.inside(x, y) && k == self.index(
                    x,
                    y,
                )),
            self.inside(x, y) && !self.pending.contains_key(self.index(x, y))
                && self.committed[self.index(x, y) as int] == tc ==> !self.set(x, y, tc).set(
                x,
                y,
                tc,
            ).pending.contains_key(self.index(x, y)),
    {
        let once = self.set(x, y, tc);
        assert(once.set(x, y, tc).pending =~= once.pending);
    }

    /// Setting every cell, as `cleared` has it, is `set_idx` on one index
    /// after the other.
    pub open spec fn set_each(self, tc: Char<TColor>, n: nat) -> Self
        decreases n,
    {
        if n == 0 {
            self
        } else {
            self.set_each(tc, (n - 1) as nat).set_idx((n - 1) as u32, tc)
        }
    }

    /// Clearing is setting one cell after the other.
    pub proof fn lemma_cleared_is_set_each(self, tc: Char<TColor>, n: nat)
        requires
            n <= self.size() <= u32::MAX,
        ensures
            self.cleared_upto(tc, n) == self.set_each(tc, n),
        decreases n,
    {
        if n == 0 {
            self.lemma_cleared_none(tc);
        } else {
            self.lemma_cleared_is_set_each(tc, (n - 1) as nat);
            self.lemma_cleared_step(tc, (n - 1) as nat);
        }
    }

    /// A refresh leaves nothing to do: a second one sends nothing and
    /// changes nothing.
    pub proof fn lemma_refresh_twice(self)
        requires
            self.wf(),
        ensures
            self.refreshed().wf(),
            self.refreshed().refresh_code() == Seq::<u8>::empty(),
            self.refreshed().refreshed() == self.refreshed(),
    {
        let r = self.refreshed();
        self.lemma_size_bound();
        r.lemma_skip(0, r.size());
        assert(r.desired() =~= r.committed);
    }

    /// The grid has fewer than 2^32 cells.
    pub proof fn lemma_size_bound(self)
        ensures
            self.size() <= 65535 * 65535,
    {
        assert(self.w as nat * self.h as nat <= 65535 * 65535) by (nonlinear_arith)
            requires
                self.w <= 65535,
                self.h <= 65535,
        ;
    }

    /// Where exactly one cell is pending, a refresh sends that cell, if it
    /// differs from what is committed, and nothing else.
    pub proof fn lemma_refresh_one(self, idx: u32)
        requires
            self.wf(),
            self.pending.dom() =~= set![idx],
        ensures
            self.dirty(idx as nat) ==> {
                &&& self.refresh_code() == self.pen.cell_code(
                    self.col(idx as nat),
                    self.row(idx as nat),
                    self.pending[idx],
                )
                &&& self.pen_upto(self.size()) == self.pen.after_cell(
                    self.col(idx as nat),
                    self.row(idx as nat),
                    self.pending[idx],
                )
            },
            !self.dirty(idx as nat) ==> {
                &&& self.refresh_code() == Seq::<u8>::empty()
                &&& self.pen_upto(self.size()) == self.pen
            },
    {
        self.lemma_size_bound();
        assert(self.pending.contains_key(idx));
        self.lemma_skip(0, idx as nat);
        self.lemma_skip((idx + 1) as nat, self.size());
    }

    /// Where a refresh writes two cells that are neighbours in a row, it
    /// sends no move between them: the second follows the first at once.
    pub proof fn lemma_neighbours(self, i: nat)
        requires
            self.wf(),
            i + 1 < self.size(),
            self.col(i) + 1 < self.w,
            self.dirty(i),
            self.dirty(i + 1),
        ensures
            self.pen_upto(i + 1).move_code(self.col(i + 1), self.row(i + 1)) == Seq::<u8>::empty(),
    {
        let w = self.w as int;
        let q = i as int / w;
        let r = i as int % w;
        lemma_fundamental_div_mod(i as int, w);
        lemma_fundamental_div_mod_converse(i as int + 1, w, q, r + 1);
    }

    /// A cell that is drawn once and then left alone is sent, then sent
    /// once more as the fill, and then left in peace.
    ///
    /// Nothing is pending at first. The cell at `(x, y)` is set to `a`,
    /// which is not what is committed there. The first refresh with decay
    /// sends `a` at `(x, y)`. Where `a` is not the fill, it leaves the cell
    /// pending with the fill; the second refresh with decay sends the fill
    /// at `(x, y)` and leaves nothing pending, and the third sends nothing.
    /// Where `a` is the fill, the first leaves nothing pending already, and
    /// the second sends nothing.
    pub proof fn lemma_decay(self, x: u16, y: u16, a: Char<TColor>, fill: Char<TColor>)
        requires
            self.wf(),
            self.pending == Map::<u32, Char<TColor>>::empty(),
            self.inside(x as int, y as int),
            self.committed[self.index(x as int, y as int) as int] != a,
        ensures
            ({
                let idx = self.index(x as int, y as int);
                let drawn = self.set(x as int, y as int, a);
                let first = drawn.decayed(fill);
                let second = first.decayed(fill);
                &&& drawn.refresh_code() == self.pen.cell_code(x, y, a)
                &&& first.committed[idx as int] == a
                &&& a != fill ==> {
                    &&& first.pending == map![idx => fill]
                    &&& first.refresh_code() == first.pen.cell_code(x, y, fill)
                    &&& second.pending == Map::<u32, Char<TColor>>::empty()
                    &&& second.committed[idx as int] == fill
                    &&& second.refresh_code() == Seq::<u8>::empty()
                }
                &&& a == fill ==> {
                    &&& first.pending == Map::<u32, Char<TColor>>::empty()
                    &&& first.refresh_code() == Seq::<u8>::empty()
                }
            }),
    {
        let idx = self.index(x as int, y as int);
        let drawn = self.set(x as int, y as int, a);
        let first = drawn.decayed(fill);
        let second = first.decayed(fill);
        self.lemma_size_bound();
        let w = self.w as int;
        assert(idx == x + y * w && idx < self.size()) by {
            assert(x + y * w < w * self.h) by (nonlinear_arith)
                requires
                    0 <= x < w,
                    0 <= y < self.h,
            ;
            assert(0 <= y * w) by (nonlinear_arith)
                requires
                    0 <= y,
                    0 <= w,
            ;
        }
        assert(self.col(idx as nat) == x && self.row(idx as nat) == y) by {
            lemma_fundamental_div_mod_converse(idx as int, w, y as int, x as int);
        }
        drawn.lemma_refresh_one(idx);
        if a != fill {
            first.lemma_refresh_one(idx);
            second.lemma_skip(0, second.size());
        } else {
            first.lemma_skip(0, first.size());
        }
    }

    /// Between two indices with nothing pending from the one up to the
    /// other, a refresh neither sends anything nor moves the pen.
    pub proof fn lemma_skip(self, from: nat, to: nat)
        requires
            from <= to <= u32::MAX + 1,
            forall|k: u32| from <= k < to ==> !self.pending.contains_key(k),
        ensures
            self.pen_upto(to) == self.pen_upto(from),
            self.code_upto(to) == self.code_upto(from),
        decreases to,
    {
        if from < to {
            self.lemma_skip(from, (to - 1) as nat);
        }
    }
}

} // verus!
