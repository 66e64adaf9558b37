//! The frame buffer: the grid that the terminal shows, the cells that were
//! set since, and the refresh that sends what differs.

use std::collections::BTreeMap;
use vstd::prelude::*;
use crate::cell::{Char, TextAttr};
use crate::frame::Frame;
use crate::order::{keys_of, lemma_no_key_between, lists_keys};
use crate::stream::{CursorState, Pen};
use crate::x1b::{Cursor, RGB};

verus! {

/// A grid of `w` columns and `h` rows together with the cells that wait
/// for the next refresh.
///
/// Its view is a `Frame`, and that frame is well formed at all times:
/// every method says so of the frame it leaves or looks at.
pub struct Curse<TColor: RGB> {
    old: Vec<Char<TColor>>,
    new: BTreeMap<u32, Char<TColor>>,
    state: Pen<TColor>,
    w: u16,
    h: u16,
}

impl<TColor: RGB> View for Curse<TColor> {
    type V = Frame<TColor>;

    closed spec fn view(&self) -> Frame<TColor> {
        Frame { w: self.w, h: self.h, committed: self.old@, pending: self.new@, pen: self.state }
    }
}

impl<TColor: RGB> Curse<TColor> {
    /// The grid has `w * h` cells, and what is pending is pending for one
    /// of them.
    #[verifier::type_invariant]
    spec fn inv(self) -> bool {
        self@.wf()
    }
}

impl<TColor: RGB + Default + Copy> Curse<TColor> {
    /// A grid of `w` columns and `h` rows in which every cell is a space
    /// without attributes, in the default colours. Nothing is pending, and
    /// the terminal's cursor is taken to stand in the top left corner.
    pub fn new(w: u16, h: u16) -> (r: Self)
        ensures
            r@.wf(),
            r@.w == w,
            r@.h == h,
            r@.pending == Map::<u32, Char<TColor>>::empty(),
            forall|i: int|
                0 <= i < r@.size() ==> {
                    &&& (#[trigger] r@.committed[i]).ch == ' '
                    &&& r@.committed[i].attr.bits == 0
                    &&& r@.committed[i] == r@.committed[0]
                    &&& call_ensures(TColor::default, (), r@.committed[i].fg)
                    &&& call_ensures(TColor::default, (), r@.committed[i].bg)
                },
            r@.pen.x == 0,
            r@.pen.y == 0,
            r@.pen.attr.bits == 0,
            call_ensures(TColor::default, (), r@.pen.fg),
            call_ensures(TColor::default, (), r@.pen.bg),
    {
        assert(w * h <= 65535 * 65535) by (nonlinear_arith)
            requires
                w <= 65535,
                h <= 65535,
        ;
        let n: usize = w as usize * h as usize;
        let blank: Char<TColor> = Char::from(' ');
        let mut old: Vec<Char<TColor>> = Vec::new();
        let mut i: usize = 0;
        while i < n
            invariant
                i <= n,
                old@.len() == i,
                forall|j: int| 0 <= j < i ==> old@[j] == blank,
            decreases n - i,
        {
            old.push(blank);
            i += 1;
        }
        let state: CursorState<TColor> = CursorState::default();
        Curse { w, h, state: state.pen, old, new: BTreeMap::new() }
    }
}

impl<TColor: RGB + Copy> Curse<TColor> {
    /// The number of columns.
    pub fn width(&self) -> (w: u16)
        ensures
            w == self@.w,
            self@.wf(),
    {
        proof {
            use_type_invariant(self);
        }
        self.w
    }

    /// The number of rows.
    pub fn height(&self) -> (h: u16)
        ensures
            h == self@.h,
            self@.wf(),
    {
        proof {
            use_type_invariant(self);
        }
        self.h
    }

    /// The number of cells that wait for the next refresh.
    pub fn pending_len(&self) -> (n: usize)
        ensures
            n == self@.pending.len(),
            self@.wf(),
    {
        proof {
            use_type_invariant(self);
        }
        self.new.len()
    }

    /// The value that the cell in column `x` of row `y` should get at the
    /// next refresh, if one is pending for it.
    pub fn pending_at(&self, x: u16, y: u16) -> (r: Option<Char<TColor>>)
        ensures
            r == if self@.inside(x as int, y as int) && self@.pending.contains_key(
                self@.index(x as int, y as int),
            ) {
                Some(self@.pending[self@.index(x as int, y as int)])
            } else {
                None
            },
            self@.wf(),
    {
        proof {
            use_type_invariant(self);
        }
        if x < self.w && y < self.h {
            proof {
                self@.lemma_size_bound();
                assert(x + y * self.w < self.w * self.h) by (nonlinear_arith)
                    requires
                        x < self.w,
                        y < self.h,
                ;
            }
            let idx = x as u32 + y as u32 * self.w as u32;
            match self.new.get(&idx) {
                Some(tc) => Some(*tc),
                None => None,
            }
        } else {
            None
        }
    }

    /// What the terminal is taken to show in column `x` of row `y`, if that
    /// is a cell of the grid.
    pub fn committed_at(&self, x: u16, y: u16) -> (r: Option<Char<TColor>>)
        ensures
            r == if self@.inside(x as int, y as int) {
                Some(self@.committed[self@.index(x as int, y as int) as int])
            } else {
                None
            },
            self@.wf(),
    {
        proof {
            use_type_invariant(self);
        }
        if x < self.w && y < self.h {
            proof {
                self@.lemma_size_bound();
                assert(x + y * self.w < self.w * self.h) by (nonlinear_arith)
                    requires
                        x < self.w,
                        y < self.h,
                ;
            }
            let idx = x as u32 + y as u32 * self.w as u32;
            Some(self.old[idx as usize])
        } else {
            None
        }
    }

    /// Sets the cell with index `idx`, counted row after row from 0. An
    /// index beyond the grid is passed over.
    pub fn setidx(&mut self, idx: u32, tc: Char<TColor>)
        ensures
            final(self)@ == if (idx as nat) < old(self)@.size() {
                old(self)@.set_idx(idx, tc)
            } else {
                old(self)@
            },
            final(self)@.wf(),
    {
        proof {
            use_type_invariant(&*self);
        }
        if (idx as usize) < self.old.len() && (self.new.contains_key(&idx) || self.old[idx as usize]
            != tc) {
            let mut new = self.take_pending();
            new.insert(idx, tc);
            self.new = new;
        }
    }

    /// Sets the cell in column `x` of row `y`, both counted from 0. A
    /// position outside the grid is passed over.
    pub fn set(&mut self, x: u16, y: u16, tc: Char<TColor>)
        ensures
            final(self)@ == old(self)@.set(x as int, y as int, tc),
            !old(self)@.inside(x as int, y as int) ==> final(self)@ == old(self)@,
            final(self)@.wf(),
    {
        proof {
            use_type_invariant(&*self);
        }
        let w = self.w;
        if x < w && y < self.h {
            assert(x + y * w < w * self.h) by (nonlinear_arith)
                requires
                    x < w,
                    y < self.h,
            ;
            assert(w * self.h <= 65535 * 65535) by (nonlinear_arith)
                requires
                    w <= 65535,
                    self.h <= 65535,
            ;
            let idx = x as u32 + y as u32 * w as u32;
            self.setidx(idx, tc);
        }
    }

    /// Sets every cell to `tc`.
    pub fn clear(&mut self, tc: Char<TColor>)
        ensures
            final(self)@ == old(self)@.cleared(tc),
            final(self)@.wf(),
    {
        assert(self.w * self.h <= 65535 * 65535) by (nonlinear_arith)
            requires
                self.w <= 65535,
                self.h <= 65535,
        ;
        proof {
            use_type_invariant(&*self);
        }
        let len = self.old.len() as u32;
        let mut idx: u32 = 0;
        proof {
            self@.lemma_cleared_none(tc);
        }
        while idx < len
            invariant
                idx <= len == old(self)@.size() <= u32::MAX,
                self@.wf(),
                self@ == old(self)@.cleared_upto(tc, idx as nat),
            decreases len - idx,
        {
            proof {
                old(self)@.lemma_cleared_step(tc, idx as nat);
            }
            self.setidx(idx, tc);
            idx += 1;
        }
    }

    /// Hands out the pending cells and leaves none pending. While they are
    /// changed they are not part of the grid, which so stays well formed at
    /// every step.
    fn take_pending(&mut self) -> (new: BTreeMap<u32, Char<TColor>>)
        ensures
            new@ == old(self)@.pending,
            final(self)@ == (Frame { pending: Map::empty(), ..old(self)@ }),
    {
        proof {
            use_type_invariant(&*self);
        }
        let mut new = BTreeMap::new();
        core::mem::swap(&mut self.new, &mut new);
        new
    }

    /// Brings one cell of the terminal in line: where `newtc` differs from
    /// `oldtc`, it is written at the position that `idx` has in a grid of
    /// `w` columns, and `oldtc` becomes `newtc`.
    fn oldnewtc(
        state: &mut CursorState<TColor>,
        w: u32,
        idx: u32,
        oldtc: &mut Char<TColor>,
        newtc: &Char<TColor>,
    )
        requires
            0 < w <= u16::MAX,
            idx / w < u16::MAX,
        ensures
            *final(oldtc) == *newtc,
            *old(oldtc) == *newtc ==> *final(state) == *old(state),
            *old(oldtc) != *newtc ==> {
                &&& final(state).cursor.0@ == old(state).cursor.0@ + old(state).pen.cell_code(
                    (idx % w) as u16,
                    (idx / w) as u16,
                    *newtc,
                )
                &&& final(state).pen == old(state).pen.after_cell(
                    (idx % w) as u16,
                    (idx / w) as u16,
                    *newtc,
                )
            },
    {
        if *oldtc != *newtc {
            *oldtc = *newtc;
            let x = (idx % w) as u16;
            let y = (idx / w) as u16;
            state.put(x, y, newtc);
        }
    }

    /// Writes every pending cell that differs from what is committed, in
    /// the order of `keys`, and commits it. What is pending stays so.
    fn diff(&mut self, keys: &Vec<u32>) -> (out: Vec<u8>)
        requires
            lists_keys(keys@, old(self)@.pending),
        ensures
            out@ == old(self)@.refresh_code(),
            final(self)@ == (Frame {
                committed: old(self)@.desired(),
                pen: old(self)@.pen_upto(old(self)@.size()),
                ..old(self)@
            }),
    {
        proof {
            use_type_invariant(&*self);
        }
        let ghost f0 = self@;
        let ghost size = f0.size();
        assert(size <= 65535 * 65535) by (nonlinear_arith)
            requires
                size == f0.w as nat * f0.h as nat,
                f0.w <= 65535,
                f0.h <= 65535,
        ;
        let w = self.w as u32;
        let mut state = CursorState { cursor: Cursor::default(), pen: self.state };
        let mut j: usize = 0;
        let ghost mut k: nat = 0;
        while j < keys.len()
            invariant
                f0.wf(),
                size == f0.size() <= 65535 * 65535,
                lists_keys(keys@, f0.pending),
                j <= keys.len(),
                k <= size,
                j == 0 ==> k == 0,
                j > 0 ==> k == keys@[j - 1] + 1,
                w == f0.w,
                self@.w == f0.w,
                self@.h == f0.h,
                self@.pending == f0.pending,
                self@.pen == f0.pen,
                self@.committed.len() == size,
                forall|i: int| 0 <= i < k ==> self@.committed[i] == f0.want(i),
                forall|i: int| k <= i < size ==> self@.committed[i] == f0.committed[i],
                state.pen == f0.pen_upto(k),
                state.cursor.0@ == f0.code_upto(k),
            decreases keys.len() - j,
        {
            let idx = keys[j];
            proof {
                assert(keys@.contains(idx));
                assert forall|q: u32| k <= q < idx implies !f0.pending.contains_key(q) by {
                    lemma_no_key_between(keys@, f0.pending, j as int, q);
                }
                f0.lemma_skip(k, idx as nat);
                f0.lemma_col_row(idx as nat);
            }
            let newtc = *self.new.get(&idx).unwrap();
            let mut oldtc = self.old[idx as usize];
            Self::oldnewtc(&mut state, w, idx, &mut oldtc, &newtc);
            self.old[idx as usize] = oldtc;
            j += 1;
            proof {
                k = (idx + 1) as nat;
            }
        }
        proof {
            assert forall|q: u32| k <= q < size implies !f0.pending.contains_key(q) by {
                lemma_no_key_between(keys@, f0.pending, j as int, q);
            }
            f0.lemma_skip(k, size);
            assert(self@.committed =~= f0.desired());
        }
        self.state = state.pen;
        state.cursor.0
    }

    /// Brings the terminal in line with the grid. Every pending cell that
    /// differs from what is committed is written, row after row, and
    /// committed; then nothing is pending. The bytes for the terminal are
    /// returned.
    pub fn refresh(&mut self) -> (out: Vec<u8>)
        ensures
            out@ == old(self)@.refresh_code(),
            final(self)@ == old(self)@.refreshed(),
            final(self)@.wf(),
    {
        let keys = keys_of(&self.new);
        let out = self.diff(&keys);
        proof {
            use_type_invariant(&*self);
        }
        self.new = BTreeMap::new();
        out
    }

    /// Brings the terminal in line with the grid, as `refresh` does, and
    /// then lets what was drawn fall back to `tc`: a cell that was pending
    /// with `tc` is pending no longer, and every other cell that was
    /// pending is pending with `tc` now. A caller that draws each frame
    /// anew so sets only the cells that are live, and the others go blank
    /// at the refresh after the next.
    pub fn perframe_refresh_then_clear(&mut self, tc: Char<TColor>) -> (out: Vec<u8>)
        ensures
            out@ == old(self)@.refresh_code(),
            final(self)@ == old(self)@.decayed(tc),
            final(self)@.wf(),
    {
        proof {
            use_type_invariant(&*self);
        }
        let keys = keys_of(&self.new);
        let out = self.diff(&keys);
        let ghost f0 = old(self)@;
        let mut new = self.take_pending();
        let mut j: usize = 0;
        let ghost mut k: nat = 0;
        while j < keys.len()
            invariant
                f0.wf(),
                lists_keys(keys@, f0.pending),
                j <= keys.len(),
                j == 0 ==> k == 0,
                j > 0 ==> k == keys@[j - 1] + 1,
                new@ == f0.decayed_upto(tc, k),
            decreases keys.len() - j,
        {
            let idx = keys[j];
            assert(keys@.contains(idx));
            let cur = *new.get(&idx).unwrap();
            if cur != tc {
                new.insert(idx, tc);
            } else {
                new.remove(&idx);
            }
            j += 1;
            proof {
                assert forall|q: u32| k <= q < idx implies !f0.pending.contains_key(q) by {
                    lemma_no_key_between(keys@, f0.pending, j - 1, q);
                }
                k = (idx + 1) as nat;
            }
        }
        proof {
            assert forall|q: u32| k <= q implies !f0.pending.contains_key(q) by {
                lemma_no_key_between(keys@, f0.pending, j as int, q);
            }
            assert(new@ =~= f0.decayed(tc).pending);
        }
        self.new = new;
        out
    }

    /// Puts the text into row `y` from column `x` on, one cell for each
    /// character.
    pub fn printnows(&mut self, x: u16, y: u16, s: &str, ta: TextAttr, fg: TColor, bg: TColor)
        ensures
            final(self)@ == old(self)@.printed_nows(x as int, y as int, s@, ta, fg, bg),
            final(self)@.wf(),
    {
        proof {
            use_type_invariant(&*self);
        }
        let ghost f0 = self@;
        let mut xx: u32 = 0;
        for c in it: s.chars()
            invariant
                it.seq() == s@,
                self@.wf(),
                self@ == f0.printed_nows(x as int, y as int, it.seq().take(it.index()), ta, fg, bg),
                xx <= 65536,
                it.index() <= 65536 ==> xx == it.index(),
                it.index() > 65536 ==> xx == 65536,
        {
            proof {
                let t = it.seq().take(it.index() + 1);
                assert(t.drop_last() =~= it.seq().take(it.index()));
            }
            if xx <= 65535 {
                if x as u32 + xx <= 65535 {
                    self.set((x as u32 + xx) as u16, y, Char::new(c, ta, fg, bg));
                }
                xx += 1;
            }
        }
        assert(s@.take(s@.len() as int) =~= s@);
    }

    /// Sets the cell in column `x` of row `y`, where either may lie beyond
    /// any grid.
    fn set_far(&mut self, x: u32, y: u32, tc: Char<TColor>)
        ensures
            final(self)@ == old(self)@.set(x as int, y as int, tc),
            final(self)@.wf(),
    {
        proof {
            use_type_invariant(&*self);
        }
        if x <= 65535 && y <= 65535 {
            self.set(x as u16, y as u16, tc);
        }
    }

    /// Prints the text from `(x, y)` on. A line feed leads to column `x` of
    /// the next row, a carriage return to column `x` of the same row. A
    /// tab at the start of a row stands for four spaces; elsewhere it puts
    /// nothing.
    pub fn print(&mut self, x: u16, y: u16, s: &str, ta: TextAttr, fg: TColor, bg: TColor)
        ensures
            final(self)@ == old(self)@.printed(x as int, y as int, s@, ta, fg, bg),
            final(self)@.wf(),
    {
        proof {
            use_type_invariant(&*self);
        }
        let ghost f0 = self@;
        let mut xx: u32 = 0;
        let mut yy: u32 = 0;
        for c in it: s.chars()
            invariant
                it.seq() == s@,
                self@.wf(),
                self@ == f0.printed(x as int, y as int, it.seq().take(it.index()), ta, fg, bg),
                0 <= Frame::<TColor>::print_col(it.seq().take(it.index())),
                0 <= Frame::<TColor>::print_row(it.seq().take(it.index())),
                xx <= 65536,
                yy <= 65536,
                xx < 65536 ==> xx == Frame::<TColor>::print_col(it.seq().take(it.index())),
                xx == 65536 ==> xx <= Frame::<TColor>::print_col(it.seq().take(it.index())),
                yy < 65536 ==> yy == Frame::<TColor>::print_row(it.seq().take(it.index())),
                yy == 65536 ==> yy <= Frame::<TColor>::print_row(it.seq().take(it.index())),
        {
            proof {
                let t = it.seq().take(it.index() + 1);
                assert(t.drop_last() =~= it.seq().take(it.index()));
            }
            if c == '\n' {
                xx = 0;
                if yy <= 65535 {
                    yy += 1;
                }
            } else if c == '\r' {
                xx = 0;
            } else if c == '\t' {
                if xx == 0 {
                    let space = Char::new(' ', ta, fg, bg);
                    self.set_far(x as u32, y as u32 + yy, space);
                    self.set_far(x as u32 + 1, y as u32 + yy, space);
                    self.set_far(x as u32 + 2, y as u32 + yy, space);
                    self.set_far(x as u32 + 3, y as u32 + yy, space);
                    xx = 4;
                }
            } else {
                self.set_far(x as u32 + xx, y as u32 + yy, Char::new(c, ta, fg, bg));
                if xx <= 65535 {
                    xx += 1;
                }
            }
        }
        assert(s@.take(s@.len() as int) =~= s@);
    }
}

} // verus!
