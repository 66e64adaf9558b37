//! The escape stream: an output buffer together with what the terminal is
//! taken to be at once it has read the buffer. A move to a place, and a
//! change of attributes or colours, consults that record and sends only
//! what changes it.

use vstd::prelude::*;
use crate::cell::{Char, TextAttr, TA_BLINK, TA_BOLD, TA_DIM, TA_REV, TA_UNDER};
use crate::decimal::extend_from_u32;
use crate::x1b::{csi, csi_num, cup, utf8, Cursor, ESC, RGB};

verus! {

/// What the terminal is taken to be at: where its cursor stands, counted
/// from 0, and which attributes and colours it writes with.
///
/// A column or row beyond 65535 is one that no move can name: the record
/// then matches no cell, and the next cell write sends its move.
#[derive(Debug)]
pub struct Pen<TColor: RGB> {
    pub x: u32,
    pub y: u32,
    pub attr: TextAttr,
    pub fg: TColor,
    pub bg: TColor,
}

impl<TColor: RGB + Copy> Copy for Pen<TColor> {
}

impl<TColor: RGB + Copy> Clone for Pen<TColor> {
    fn clone(&self) -> (r: Self)
        ensures
            r == *self,
    {
        *self
    }
}

/// `n + 1`, or `n` where the successor does not fit.
pub open spec fn bump(n: u32) -> u32 {
    if n < u32::MAX {
        (n + 1) as u32
    } else {
        n
    }
}

/// `n` moved by `by`, and kept between 0 and the largest number that fits.
pub open spec fn slide(n: u32, by: int) -> u32 {
    if n + by < 0 {
        0
    } else if n + by > u32::MAX {
        u32::MAX
    } else {
        (n + by) as u32
    }
}

/// The place, counted from 0, that a terminal means by the number `n`,
/// which counts from 1.
pub open spec fn place(n: u16) -> u32 {
    if n == 0 {
        0
    } else {
        (n - 1) as u32
    }
}

/// The parameter list `s` with the code of `flag` added, if `on` holds the
/// flag: parameters are separated by `;`.
pub open spec fn add_param(s: Seq<u8>, on: u8, flag: u8, code: u8) -> Seq<u8> {
    if on & flag == flag {
        if s.len() == 0 {
            seq![code]
        } else {
            s + seq![';' as u8, code]
        }
    } else {
        s
    }
}

/// The parameters that turn on the attributes of `on`, in the order bold,
/// dim, underline, blink, reverse: `1`, `2`, `4`, `5`, `7`.
pub open spec fn attr_params(on: u8) -> Seq<u8> {
    let s = Seq::<u8>::empty();
    let s = add_param(s, on, TA_BOLD, '1' as u8);
    let s = add_param(s, on, TA_DIM, '2' as u8);
    let s = add_param(s, on, TA_UNDER, '4' as u8);
    let s = add_param(s, on, TA_BLINK, '5' as u8);
    add_param(s, on, TA_REV, '7' as u8)
}

/// `ESC [` before a parameter list that is not empty, nothing before an
/// empty one.
pub open spec fn begun(params: Seq<u8>) -> Seq<u8> {
    if params.len() == 0 {
        params
    } else {
        csi() + params
    }
}

/// `ESC [ params m` for a parameter list that is not empty, nothing for an
/// empty one.
pub open spec fn ended(params: Seq<u8>) -> Seq<u8> {
    if params.len() == 0 {
        params
    } else {
        csi() + params + seq!['m' as u8]
    }
}

/// The one sequence that turns on the attributes of `on`; nothing where
/// `on` holds none.
pub open spec fn attr_on_code(on: u8) -> Seq<u8> {
    ended(attr_params(on))
}

/// The sequence that resets all attributes, `ESC [ m`.
pub open spec fn attr_reset_code() -> Seq<u8> {
    seq![ESC, '[' as u8, 'm' as u8]
}

impl<TColor: RGB> Pen<TColor> {
    /// Whether the cursor is taken to stand at column `x` of row `y`.
    pub open spec fn at(self, x: u16, y: u16) -> bool {
        self.x == x && self.y == y
    }

    /// What a move to `(x, y)` sends: nothing where the cursor stands there
    /// already, else the absolute move, which counts from 1.
    pub open spec fn move_code(self, x: u16, y: u16) -> Seq<u8> {
        if self.at(x, y) {
            Seq::empty()
        } else {
            cup((y + 1) as nat, (x + 1) as nat)
        }
    }

    pub open spec fn moved(self, x: u16, y: u16) -> Self {
        Pen { x: x as u32, y: y as u32, ..self }
    }

    /// What a change of the attributes to `ta` sends. Nothing where they
    /// are `ta` already. Where `ta` keeps every attribute that is on, one
    /// sequence that turns on the new ones. Else the reset, followed by one
    /// sequence that turns on all of `ta`.
    pub open spec fn attr_code(self, ta: TextAttr) -> Seq<u8> {
        if ta == self.attr {
            Seq::empty()
        } else if ta.has(self.attr) {
            attr_on_code(ta.bits & !self.attr.bits)
        } else {
            attr_reset_code() + attr_on_code(ta.bits)
        }
    }

    pub open spec fn with_attr(self, ta: TextAttr) -> Self {
        Pen { attr: ta, ..self }
    }

    /// What a change of the foreground to `c` sends: nothing where it is
    /// `c` already.
    pub open spec fn fg_change(self, c: TColor) -> Seq<u8> {
        if self.fg == c {
            Seq::empty()
        } else {
            c.fg_code()
        }
    }

    pub open spec fn with_fg(self, c: TColor) -> Self {
        Pen { fg: c, ..self }
    }

    /// What a change of the background to `c` sends: nothing where it is
    /// `c` already.
    pub open spec fn bg_change(self, c: TColor) -> Seq<u8> {
        if self.bg == c {
            Seq::empty()
        } else {
            c.bg_code()
        }
    }

    pub open spec fn with_bg(self, c: TColor) -> Self {
        Pen { bg: c, ..self }
    }

    /// The pen after a move by `dx` columns and `dy` rows. A move stops at
    /// column 0 and row 0.
    pub open spec fn shifted(self, dx: int, dy: int) -> Self {
        Pen { x: slide(self.x, dx), y: slide(self.y, dy), ..self }
    }

    /// The pen after one character was written: one column further right.
    pub open spec fn advanced(self) -> Self {
        Pen { x: bump(self.x), ..self }
    }

    /// The pen after one character of raw text: a line feed leads to the
    /// start of the next row, any other character one column further.
    pub open spec fn after_char(self, c: char) -> Self {
        if c == '\n' {
            Pen { x: 0, y: bump(self.y), ..self }
        } else {
            self.advanced()
        }
    }

    /// The pen after raw text.
    pub open spec fn after_text(self, s: Seq<char>) -> Self
        decreases s.len(),
    {
        if s.len() == 0 {
            self
        } else {
            self.after_text(s.drop_last()).after_char(s.last())
        }
    }

    /// What writing `cell` at `(x, y)` sends: the move, the attributes, the
    /// background, the foreground, each only as far as it changes
    /// anything, and then the character.
    pub open spec fn cell_code(self, x: u16, y: u16, cell: Char<TColor>) -> Seq<u8> {
        self.move_code(x, y) + self.attr_code(cell.attr) + self.bg_change(cell.bg)
            + self.fg_change(cell.fg) + utf8(cell.ch)
    }

    /// The pen after `cell` was written at `(x, y)`: one column right of
    /// the cell, with the cell's attributes and colours.
    pub open spec fn after_cell(self, x: u16, y: u16, cell: Char<TColor>) -> Self {
        Pen { x: (x + 1) as u32, y: y as u32, attr: cell.attr, fg: cell.fg, bg: cell.bg }
    }
}

/// Whether `flag` is the bit of exactly one attribute.
pub open spec fn is_flag(flag: u8) -> bool {
    flag == TA_BOLD || flag == TA_DIM || flag == TA_UNDER || flag == TA_BLINK || flag == TA_REV
}

/// The parameter that turns on the attribute with the bit `flag`.
pub open spec fn flag_code(flag: u8) -> u8 {
    if flag == TA_BOLD {
        '1' as u8
    } else if flag == TA_DIM {
        '2' as u8
    } else if flag == TA_UNDER {
        '4' as u8
    } else if flag == TA_BLINK {
        '5' as u8
    } else {
        '7' as u8
    }
}

/// Turning on one attribute takes the sequence `ESC [ code m` with the code
/// of that attribute.
pub proof fn lemma_attr_on_one(flag: u8)
    requires
        is_flag(flag),
    ensures
        attr_on_code(flag) == seq![ESC, '[' as u8, flag_code(flag), 'm' as u8],
{
    assert(1u8 & 1 == 1 && 1u8 & 2 != 2 && 1u8 & 4 != 4 && 1u8 & 8 != 8 && 1u8 & 16 != 16)
        by (bit_vector);
    assert(2u8 & 1 != 1 && 2u8 & 2 == 2 && 2u8 & 4 != 4 && 2u8 & 8 != 8 && 2u8 & 16 != 16)
        by (bit_vector);
    assert(4u8 & 1 != 1 && 4u8 & 2 != 2 && 4u8 & 4 == 4 && 4u8 & 8 != 8 && 4u8 & 16 != 16)
        by (bit_vector);
    assert(8u8 & 1 != 1 && 8u8 & 2 != 2 && 8u8 & 4 != 4 && 8u8 & 8 == 8 && 8u8 & 16 != 16)
        by (bit_vector);
    assert(16u8 & 1 != 1 && 16u8 & 2 != 2 && 16u8 & 4 != 4 && 16u8 & 8 != 8 && 16u8 & 16 == 16)
        by (bit_vector);
}

impl<TColor: RGB> Pen<TColor> {
    /// Asking twice for the same attributes sends nothing the second time.
    pub proof fn lemma_attr_repeat(self, ta: TextAttr)
        ensures
            self.with_attr(ta).attr_code(ta) == Seq::<u8>::empty(),
    {
    }

    /// Where one more attribute is asked for than is on, only the sequence
    /// that turns on that one is sent.
    pub proof fn lemma_attr_add_one(self, flag: u8)
        requires
            is_flag(flag),
            self.attr.bits & flag == 0,
        ensures
            self.attr_code(TextAttr { bits: self.attr.bits | flag }) == seq![
                ESC,
                '[' as u8,
                flag_code(flag),
                'm' as u8,
            ],
    {
        let a = self.attr.bits;
        let b = a | flag;
        assert(b & a == a && b & !a == flag && b != a) by (bit_vector)
            requires
                b == a | flag,
                a & flag == 0,
                flag != 0,
        ;
        lemma_attr_on_one(flag);
    }

    /// Where an attribute that is on is not asked for, the reset is sent,
    /// followed by the one sequence that turns on what is asked for.
    pub proof fn lemma_attr_drop(self, ta: TextAttr)
        requires
            !ta.has(self.attr),
        ensures
            self.attr_code(ta) == attr_reset_code() + attr_on_code(ta.bits),
    {
        let a = self.attr.bits;
        assert(a & a == a) by (bit_vector);
    }

    /// A move to where the cursor was moved to before sends nothing.
    pub proof fn lemma_move_repeat(self, x: u16, y: u16)
        ensures
            self.moved(x, y).move_code(x, y) == Seq::<u8>::empty(),
    {
    }

    /// After a cell was written, the cursor stands on the next cell of the
    /// row: writing that one sends no move.
    pub proof fn lemma_move_after_cell(self, x: u16, y: u16, cell: Char<TColor>)
        requires
            x < u16::MAX,
        ensures
            self.after_cell(x, y, cell).move_code((x + 1) as u16, y) == Seq::<u8>::empty(),
    {
    }

    /// Writing the same cell on the next column sends the character and
    /// nothing else.
    pub proof fn lemma_run(self, x: u16, y: u16, cell: Char<TColor>, next: char)
        requires
            x < u16::MAX,
        ensures
            self.after_cell(x, y, cell).cell_code((x + 1) as u16, y, Char { ch: next, ..cell })
                == utf8(next),
    {
    }
}

/// Adds the code of `flag` to the parameter list that `buf` ends in, if
/// `on` holds the flag, and tells whether the list holds anything now.
fn push_param(
    buf: &mut Vec<u8>,
    any: bool,
    on: u8,
    flag: u8,
    code: u8,
    Ghost(base): Ghost<Seq<u8>>,
    Ghost(params): Ghost<Seq<u8>>,
) -> (r: bool)
    requires
        old(buf)@ == base + begun(params),
        any == (params.len() > 0),
    ensures
        final(buf)@ == base + begun(add_param(params, on, flag, code)),
        r == (add_param(params, on, flag, code).len() > 0),
{
    if on & flag == flag {
        if any {
            buf.push(';' as u8);
        } else {
            buf.push(ESC);
            buf.push('[' as u8);
        }
        buf.push(code);
        true
    } else {
        any
    }
}

/// Appends the one sequence that turns on the attributes of `on`.
fn push_attr_on(buf: &mut Vec<u8>, on: u8)
    ensures
        final(buf)@ == old(buf)@ + attr_on_code(on),
{
    let ghost base = buf@;
    let ghost s0 = Seq::<u8>::empty();
    let ghost s1 = add_param(s0, on, TA_BOLD, '1' as u8);
    let ghost s2 = add_param(s1, on, TA_DIM, '2' as u8);
    let ghost s3 = add_param(s2, on, TA_UNDER, '4' as u8);
    let ghost s4 = add_param(s3, on, TA_BLINK, '5' as u8);
    let any = push_param(buf, false, on, TA_BOLD, '1' as u8, Ghost(base), Ghost(s0));
    let any = push_param(buf, any, on, TA_DIM, '2' as u8, Ghost(base), Ghost(s1));
    let any = push_param(buf, any, on, TA_UNDER, '4' as u8, Ghost(base), Ghost(s2));
    let any = push_param(buf, any, on, TA_BLINK, '5' as u8, Ghost(base), Ghost(s3));
    let any = push_param(buf, any, on, TA_REV, '7' as u8, Ghost(base), Ghost(s4));
    if any {
        buf.push('m' as u8);
    }
}

fn step_on(at: u32, n: u16) -> (r: u32)
    ensures
        r == slide(at, n as int),
{
    if at <= u32::MAX - n as u32 {
        at + n as u32
    } else {
        u32::MAX
    }
}

fn step_back(at: u32, n: u16) -> (r: u32)
    ensures
        r == slide(at, -(n as int)),
{
    if at >= n as u32 {
        at - n as u32
    } else {
        0
    }
}

/// The escape stream: the output buffer and the pen that the buffered bytes
/// leave the terminal with.
///
/// What moves the cursor or changes attributes or colours goes through the
/// methods here, which keep the pen. What does neither, such as erasing,
/// can be sent through `cursor`.
pub struct CursorState<TColor: RGB> {
    pub cursor: Cursor,
    pub pen: Pen<TColor>,
}

impl<TColor: RGB + Default> Default for CursorState<TColor> {
    /// An empty buffer; the cursor is taken to stand in the top left
    /// corner, without attributes, in the default colours.
    fn default() -> (r: Self)
        ensures
            r.cursor.0@ == Seq::<u8>::empty(),
            r.pen.x == 0,
            r.pen.y == 0,
            r.pen.attr.bits == 0,
            call_ensures(TColor::default, (), r.pen.fg),
            call_ensures(TColor::default, (), r.pen.bg),
    {
        CursorState {
            cursor: Cursor::default(),
            pen: Pen {
                x: 0,
                y: 0,
                attr: TextAttr::empty(),
                fg: TColor::default(),
                bg: TColor::default(),
            },
        }
    }
}

impl<TColor: RGB + Copy> CursorState<TColor> {
    /// Moves the cursor to column `x` of row `y`, counted from 0. Sends
    /// nothing where the cursor is taken to stand there already.
    pub fn moveto(&mut self, x: u16, y: u16)
        ensures
            final(self).cursor.0@ == old(self).cursor.0@ + old(self).pen.move_code(x, y),
            final(self).pen == old(self).pen.moved(x, y),
    {
        if self.pen.x != x as u32 || self.pen.y != y as u32 {
            self.cursor.0.push(ESC);
            self.cursor.0.push('[' as u8);
            extend_from_u32(&mut self.cursor.0, y as u32 + 1);
            self.cursor.0.push(';' as u8);
            extend_from_u32(&mut self.cursor.0, x as u32 + 1);
            self.cursor.0.push('H' as u8);
            self.pen.x = x as u32;
            self.pen.y = y as u32;
        }
    }

    /// Moves the cursor up `n` rows. This is sent whatever the cursor is
    /// taken to be at, as all relative moves are.
    pub fn up(&mut self, n: u16)
        ensures
            final(self).cursor.0@ == old(self).cursor.0@ + csi_num(n as nat, 'A' as u8),
            final(self).pen == old(self).pen.shifted(0, -(n as int)),
    {
        self.cursor.up(n);
        self.pen.y = step_back(self.pen.y, n);
    }

    /// Moves the cursor down `n` rows.
    pub fn down(&mut self, n: u16)
        ensures
            final(self).cursor.0@ == old(self).cursor.0@ + csi_num(n as nat, 'B' as u8),
            final(self).pen == old(self).pen.shifted(0, n as int),
    {
        self.cursor.down(n);
        self.pen.y = step_on(self.pen.y, n);
    }

    /// Moves the cursor right `n` columns.
    pub fn right(&mut self, n: u16)
        ensures
            final(self).cursor.0@ == old(self).cursor.0@ + csi_num(n as nat, 'C' as u8),
            final(self).pen == old(self).pen.shifted(n as int, 0),
    {
        self.cursor.right(n);
        self.pen.x = step_on(self.pen.x, n);
    }

    /// Moves the cursor left `n` columns.
    pub fn left(&mut self, n: u16)
        ensures
            final(self).cursor.0@ == old(self).cursor.0@ + csi_num(n as nat, 'D' as u8),
            final(self).pen == old(self).pen.shifted(-(n as int), 0),
    {
        self.cursor.left(n);
        self.pen.x = step_back(self.pen.x, n);
    }

    /// Moves the cursor to the start of the line `n` rows down.
    pub fn x1down(&mut self, n: u16)
        ensures
            final(self).cursor.0@ == old(self).cursor.0@ + csi_num(n as nat, 'E' as u8),
            final(self).pen == (Pen { x: 0, ..old(self).pen.shifted(0, n as int) }),
    {
        self.cursor.x1down(n);
        self.pen.y = step_on(self.pen.y, n);
        self.pen.x = 0;
    }

    /// Moves the cursor to the start of the line `n` rows up.
    pub fn x1up(&mut self, n: u16)
        ensures
            final(self).cursor.0@ == old(self).cursor.0@ + csi_num(n as nat, 'F' as u8),
            final(self).pen == (Pen { x: 0, ..old(self).pen.shifted(0, -(n as int)) }),
    {
        self.cursor.x1up(n);
        self.pen.y = step_back(self.pen.y, n);
        self.pen.x = 0;
    }

    /// Moves the cursor to column `x` of its row, counted from 1 as the
    /// terminal counts. This is sent whatever the cursor is taken to be
    /// at.
    pub fn setx(&mut self, x: u16)
        ensures
            final(self).cursor.0@ == old(self).cursor.0@ + csi_num(x as nat, 'G' as u8),
            final(self).pen == (Pen { x: place(x), ..old(self).pen }),
    {
        self.cursor.setx(x);
        self.pen.x = if x == 0 {
            0
        } else {
            (x - 1) as u32
        };
    }

    /// Moves the cursor to row `y` of its column, counted from 1 as the
    /// terminal counts.
    pub fn sety(&mut self, y: u16)
        ensures
            final(self).cursor.0@ == old(self).cursor.0@ + csi_num(y as nat, 'd' as u8),
            final(self).pen == (Pen { y: place(y), ..old(self).pen }),
    {
        self.cursor.sety(y);
        self.pen.y = if y == 0 {
            0
        } else {
            (y - 1) as u32
        };
    }

    /// Moves the cursor to the top left corner.
    pub fn resetxy(&mut self)
        ensures
            final(self).cursor.0@ == old(self).cursor.0@ + seq![ESC, '[' as u8, 'H' as u8],
            final(self).pen == (Pen { x: 0, y: 0, ..old(self).pen }),
    {
        self.cursor.resetxy();
        self.pen.x = 0;
        self.pen.y = 0;
    }

    /// Makes `ta` the attributes that the terminal writes with.
    pub fn setattr(&mut self, ta: TextAttr)
        ensures
            final(self).cursor.0@ == old(self).cursor.0@ + old(self).pen.attr_code(ta),
            final(self).pen == old(self).pen.with_attr(ta),
    {
        if ta == self.pen.attr {
            return ;
        }
        if ta.contains(self.pen.attr) {
            push_attr_on(&mut self.cursor.0, ta.bits & !self.pen.attr.bits);
        } else {
            self.cursor.clearattr();
            push_attr_on(&mut self.cursor.0, ta.bits);
        }
        self.pen.attr = ta;
    }

    /// Makes `rgb` the background colour.
    pub fn setbg(&mut self, rgb: TColor)
        ensures
            final(self).cursor.0@ == old(self).cursor.0@ + old(self).pen.bg_change(rgb),
            final(self).pen == old(self).pen.with_bg(rgb),
    {
        if !self.pen.bg.same(&rgb) {
            self.pen.bg = rgb;
            self.cursor.setbg(rgb);
        }
    }

    /// Makes `rgb` the foreground colour.
    pub fn setfg(&mut self, rgb: TColor)
        ensures
            final(self).cursor.0@ == old(self).cursor.0@ + old(self).pen.fg_change(rgb),
            final(self).pen == old(self).pen.with_fg(rgb),
    {
        if !self.pen.fg.same(&rgb) {
            self.pen.fg = rgb;
            self.cursor.setfg(rgb);
        }
    }

    /// Writes one character where the cursor stands, which moves the
    /// cursor one column to the right.
    pub fn prchr(&mut self, c: char)
        ensures
            final(self).cursor.0@ == old(self).cursor.0@ + utf8(c),
            final(self).pen == old(self).pen.advanced(),
    {
        self.cursor.prchr(c);
        if self.pen.x < u32::MAX {
            self.pen.x = self.pen.x + 1;
        }
    }

    /// Writes raw text where the cursor stands. Each line feed in it moves
    /// the cursor to the start of the next row, each other character one
    /// column to the right.
    pub fn print(&mut self, s: &str)
        ensures
            final(self).cursor.0@ == old(self).cursor.0@ + vstd::utf8::encode_utf8(s@),
            final(self).pen == old(self).pen.after_text(s@),
    {
        self.cursor.print(s);
        let ghost out = self.cursor.0@;
        let ghost start = self.pen;
        for c in it: s.chars()
            invariant
                it.seq() == s@,
                self.cursor.0@ == out,
                self.pen == start.after_text(it.seq().take(it.index())),
        {
            proof {
                let t = it.seq().take(it.index() + 1);
                assert(t.drop_last() =~= it.seq().take(it.index()));
            }
            if c == '\n' {
                self.pen.x = 0;
                if self.pen.y < u32::MAX {
                    self.pen.y = self.pen.y + 1;
                }
            } else if self.pen.x < u32::MAX {
                self.pen.x = self.pen.x + 1;
            }
        }
        assert(s@.take(s@.len() as int) =~= s@);
    }

    /// Writes `cell` at column `x` of row `y`, counted from 0.
    pub fn put(&mut self, x: u16, y: u16, cell: &Char<TColor>)
        ensures
            final(self).cursor.0@ == old(self).cursor.0@ + old(self).pen.cell_code(x, y, *cell),
            final(self).pen == old(self).pen.after_cell(x, y, *cell),
    {
        self.moveto(x, y);
        self.setattr(cell.attr);
        self.setbg(cell.bg);
        self.setfg(cell.fg);
        self.prchr(cell.ch);
    }
}

} // verus!
