//! Terminal control codes: the colour kinds and the buffer that the codes
//! are appended to.

use vstd::prelude::*;
use crate::decimal::{decimal, extend_from_u16, extend_from_u8};

verus! {

/// The escape byte that opens every control sequence.
pub const ESC: u8 = 0x1b;

/// The control sequence introducer, `ESC [`.
pub open spec fn csi() -> Seq<u8> {
    seq![ESC, '[' as u8]
}

/// The sequence `ESC [ n final`, with `n` as a decimal numeral.
pub open spec fn csi_num(n: nat, last: u8) -> Seq<u8> {
    csi() + decimal(n) + seq![last]
}

/// The select-graphic-rendition sequence `ESC [ n m`.
pub open spec fn sgr(n: nat) -> Seq<u8> {
    csi_num(n, 'm' as u8)
}

/// The absolute cursor move `ESC [ row ; col H`, both numbers counted from 1.
pub open spec fn cup(row: nat, col: nat) -> Seq<u8> {
    csi() + decimal(row) + seq![';' as u8] + decimal(col) + seq!['H' as u8]
}

/// The UTF-8 encoding of one character.
pub open spec fn utf8(c: char) -> Seq<u8> {
    vstd::utf8::encode_scalar(c as u32)
}

/// A colour that knows the control sequences that select it.
///
/// `fg` and `bg` only append to the buffer they are given. `same` is the
/// equality test that the renderer uses to leave out a colour change.
pub trait RGB: Sized {
    /// The bytes that select this colour as the foreground.
    spec fn fg_code(&self) -> Seq<u8>;

    /// The bytes that select this colour as the background.
    spec fn bg_code(&self) -> Seq<u8>;

    fn fg(&self, buf: &mut Vec<u8>)
        ensures
            final(buf)@ == old(buf)@ + self.fg_code(),
    ;

    fn bg(&self, buf: &mut Vec<u8>)
        ensures
            final(buf)@ == old(buf)@ + self.bg_code(),
    ;

    fn same(&self, other: &Self) -> (r: bool)
        ensures
            r == (*self == *other),
    ;
}

/// The sixteen named colours, and the terminal's own default.
#[derive(Copy, Clone, Eq, PartialEq, Structural, Debug)]
pub enum RGB4 {
    Default,
    Black,
    Red,
    Green,
    Yellow,
    Blue,
    Magenta,
    Cyan,
    LightGray,
    DarkGray,
    LightRed,
    LightGreen,
    LightYellow,
    LightBlue,
    LightMagenta,
    LightCyan,
    White,
}

impl Default for RGB4 {
    fn default() -> (r: Self)
        ensures
            r == RGB4::Default,
    {
        RGB4::Default
    }
}

impl RGB4 {
    /// The rendition number that selects this colour as the foreground:
    /// 30 to 37 for the dark colours, 90 to 97 for the light ones, 39 for
    /// the default.
    pub open spec fn fg_number(self) -> nat {
        match self {
            RGB4::Default => 39,
            RGB4::Black => 30,
            RGB4::Red => 31,
            RGB4::Green => 32,
            RGB4::Yellow => 33,
            RGB4::Blue => 34,
            RGB4::Magenta => 35,
            RGB4::Cyan => 36,
            RGB4::LightGray => 37,
            RGB4::DarkGray => 90,
            RGB4::LightRed => 91,
            RGB4::LightGreen => 92,
            RGB4::LightYellow => 93,
            RGB4::LightBlue => 94,
            RGB4::LightMagenta => 95,
            RGB4::LightCyan => 96,
            RGB4::White => 97,
        }
    }

    /// The rendition number that selects this colour as the background:
    /// the foreground number plus ten.
    pub open spec fn bg_number(self) -> nat {
        self.fg_number() + 10
    }

    /// The place of this colour in the 256-colour palette; the default
    /// stands with black.
    pub open spec fn palette_index(self) -> u8 {
        match self {
            RGB4::Default => 0,
            RGB4::Black => 0,
            RGB4::Red => 1,
            RGB4::Green => 2,
            RGB4::Yellow => 3,
            RGB4::Blue => 4,
            RGB4::Magenta => 5,
            RGB4::Cyan => 6,
            RGB4::LightGray => 7,
            RGB4::DarkGray => 8,
            RGB4::LightRed => 9,
            RGB4::LightGreen => 10,
            RGB4::LightYellow => 11,
            RGB4::LightBlue => 12,
            RGB4::LightMagenta => 13,
            RGB4::LightCyan => 14,
            RGB4::White => 15,
        }
    }

    fn fg_num(&self) -> (n: u8)
        ensures
            n == self.fg_number(),
    {
        match *self {
            RGB4::Default => 39,
            RGB4::Black => 30,
            RGB4::Red => 31,
            RGB4::Green => 32,
            RGB4::Yellow => 33,
            RGB4::Blue => 34,
            RGB4::Magenta => 35,
            RGB4::Cyan => 36,
            RGB4::LightGray => 37,
            RGB4::DarkGray => 90,
            RGB4::LightRed => 91,
            RGB4::LightGreen => 92,
            RGB4::LightYellow => 93,
            RGB4::LightBlue => 94,
            RGB4::LightMagenta => 95,
            RGB4::LightCyan => 96,
            RGB4::White => 97,
        }
    }
}

/// Appends `ESC [ n m`.
fn push_sgr(buf: &mut Vec<u8>, n: u8)
    ensures
        final(buf)@ == old(buf)@ + sgr(n as nat),
{
    buf.push(ESC);
    buf.push('[' as u8);
    extend_from_u8(buf, n);
    buf.push('m' as u8);
}

impl RGB for RGB4 {
    open spec fn fg_code(&self) -> Seq<u8> {
        sgr(self.fg_number())
    }

    open spec fn bg_code(&self) -> Seq<u8> {
        sgr(self.bg_number())
    }

    fn fg(&self, buf: &mut Vec<u8>) {
        push_sgr(buf, self.fg_num());
    }

    fn bg(&self, buf: &mut Vec<u8>) {
        push_sgr(buf, self.fg_num() + 10);
    }

    fn same(&self, other: &Self) -> (r: bool) {
        *self == *other
    }
}

/// No colour at all: selecting it sends nothing.
impl RGB for () {
    open spec fn fg_code(&self) -> Seq<u8> {
        Seq::empty()
    }

    open spec fn bg_code(&self) -> Seq<u8> {
        Seq::empty()
    }

    fn fg(&self, _buf: &mut Vec<u8>) {
    }

    fn bg(&self, _buf: &mut Vec<u8>) {
    }

    fn same(&self, _other: &Self) -> (r: bool) {
        true
    }
}

/// A colour of the 256-colour palette, by its index.
#[derive(Copy, Clone, Eq, PartialEq, Structural, Debug)]
pub struct RGB8(pub u8);

impl Default for RGB8 {
    /// The first colour of the palette.
    fn default() -> (r: Self)
        ensures
            r == RGB8(0),
    {
        RGB8(0)
    }
}

impl RGB8 {
    /// The colour of the 6x6x6 cube with the given levels. The index has to
    /// fit in a byte, as it does for levels below 6.
    pub fn rgb(r: u8, g: u8, b: u8) -> (c: RGB8)
        requires
            16 + r * 36 + g * 6 + b <= 255,
        ensures
            c.0 == 16 + r * 36 + g * 6 + b,
    {
        RGB8(16 + r * 36 + g * 6 + b)
    }

    /// The grey of the given step of the greyscale ramp, which starts at
    /// index 232.
    pub fn gray(s: u8) -> (c: RGB8)
        requires
            232 + s <= 255,
        ensures
            c.0 == 232 + s,
    {
        RGB8(232 + s)
    }
}

impl From<RGB4> for RGB8 {
    fn from(c: RGB4) -> (r: RGB8) {
        RGB8(
            match c {
                RGB4::Default => 0,
                RGB4::Black => 0,
                RGB4::Red => 1,
                RGB4::Green => 2,
                RGB4::Yellow => 3,
                RGB4::Blue => 4,
                RGB4::Magenta => 5,
                RGB4::Cyan => 6,
                RGB4::LightGray => 7,
                RGB4::DarkGray => 8,
                RGB4::LightRed => 9,
                RGB4::LightGreen => 10,
                RGB4::LightYellow => 11,
                RGB4::LightBlue => 12,
                RGB4::LightMagenta => 13,
                RGB4::LightCyan => 14,
                RGB4::White => 15,
            },
        )
    }
}

impl vstd::std_specs::convert::FromSpecImpl<RGB4> for RGB8 {
    open spec fn obeys_from_spec() -> bool {
        true
    }

    open spec fn from_spec(c: RGB4) -> RGB8 {
        RGB8(c.palette_index())
    }
}

/// The sequence `ESC [ kind ; 5 ; n m` that selects palette colour `n`;
/// `kind` is 38 for the foreground and 48 for the background.
pub open spec fn indexed_code(kind: nat, n: u8) -> Seq<u8> {
    csi() + decimal(kind) + seq![';' as u8, '5' as u8, ';' as u8] + decimal(n as nat) + seq![
        'm' as u8,
    ]
}

/// The sequence `ESC [ kind ; 2 ; r ; g ; b m` that selects a 24-bit
/// colour; `kind` is 38 for the foreground and 48 for the background.
pub open spec fn direct_code(kind: nat, r: u8, g: u8, b: u8) -> Seq<u8> {
    csi() + decimal(kind) + seq![';' as u8, '2' as u8, ';' as u8] + decimal(r as nat) + seq![
        ';' as u8,
    ] + decimal(g as nat) + seq![';' as u8] + decimal(b as nat) + seq!['m' as u8]
}

fn push_indexed(buf: &mut Vec<u8>, kind: u8, n: u8)
    ensures
        final(buf)@ == old(buf)@ + indexed_code(kind as nat, n),
{
    buf.push(ESC);
    buf.push('[' as u8);
    extend_from_u8(buf, kind);
    buf.push(';' as u8);
    buf.push('5' as u8);
    buf.push(';' as u8);
    extend_from_u8(buf, n);
    buf.push('m' as u8);
}

fn push_direct(buf: &mut Vec<u8>, kind: u8, r: u8, g: u8, b: u8)
    ensures
        final(buf)@ == old(buf)@ + direct_code(kind as nat, r, g, b),
{
    buf.push(ESC);
    buf.push('[' as u8);
    extend_from_u8(buf, kind);
    buf.push(';' as u8);
    buf.push('2' as u8);
    buf.push(';' as u8);
    extend_from_u8(buf, r);
    buf.push(';' as u8);
    extend_from_u8(buf, g);
    buf.push(';' as u8);
    extend_from_u8(buf, b);
    buf.push('m' as u8);
}

impl RGB for RGB8 {
    open spec fn fg_code(&self) -> Seq<u8> {
        indexed_code(38, self.0)
    }

    open spec fn bg_code(&self) -> Seq<u8> {
        indexed_code(48, self.0)
    }

    fn fg(&self, buf: &mut Vec<u8>) {
        push_indexed(buf, 38, self.0);
    }

    fn bg(&self, buf: &mut Vec<u8>) {
        push_indexed(buf, 48, self.0);
    }

    fn same(&self, other: &Self) -> (r: bool) {
        self.0 == other.0
    }
}

/// A 24-bit colour: red, green, blue.
impl RGB for (u8, u8, u8) {
    open spec fn fg_code(&self) -> Seq<u8> {
        direct_code(38, self.0, self.1, self.2)
    }

    open spec fn bg_code(&self) -> Seq<u8> {
        direct_code(48, self.0, self.1, self.2)
    }

    fn fg(&self, buf: &mut Vec<u8>) {
        push_direct(buf, 38, self.0, self.1, self.2);
    }

    fn bg(&self, buf: &mut Vec<u8>) {
        push_direct(buf, 48, self.0, self.1, self.2);
    }

    fn same(&self, other: &Self) -> (r: bool) {
        self.0 == other.0 && self.1 == other.1 && self.2 == other.2
    }
}

/// A buffer of bytes on their way to the terminal. Every method appends;
/// nothing here remembers what the terminal was told before.
pub struct Cursor(pub Vec<u8>);

impl Default for Cursor {
    fn default() -> (r: Self)
        ensures
            r.0@ == Seq::<u8>::empty(),
    {
        Cursor(Vec::new())
    }
}

impl Cursor {
    /// Appends `s` as it is.
    pub fn ext(&mut self, s: &[u8])
        ensures
            final(self).0@ == old(self).0@ + s@,
    {
        self.0.extend_from_slice(s)
    }

    /// Resets every attribute and both colours.
    pub fn clearattr(&mut self)
        ensures
            final(self).0@ == old(self).0@ + seq![ESC, '[' as u8, 'm' as u8],
    {
        self.ext(&[ESC, '[' as u8, 'm' as u8])
    }

    /// Turns bold on.
    pub fn setbold(&mut self)
        ensures
            final(self).0@ == old(self).0@ + seq![ESC, '[' as u8, '1' as u8, 'm' as u8],
    {
        self.ext(&[ESC, '[' as u8, '1' as u8, 'm' as u8])
    }

    /// Turns dim on.
    pub fn setdim(&mut self)
        ensures
            final(self).0@ == old(self).0@ + seq![ESC, '[' as u8, '2' as u8, 'm' as u8],
    {
        self.ext(&[ESC, '[' as u8, '2' as u8, 'm' as u8])
    }

    /// Turns underline on.
    pub fn setunder(&mut self)
        ensures
            final(self).0@ == old(self).0@ + seq![ESC, '[' as u8, '4' as u8, 'm' as u8],
    {
        self.ext(&[ESC, '[' as u8, '4' as u8, 'm' as u8])
    }

    /// Turns blink on.
    pub fn setblink(&mut self)
        ensures
            final(self).0@ == old(self).0@ + seq![ESC, '[' as u8, '5' as u8, 'm' as u8],
    {
        self.ext(&[ESC, '[' as u8, '5' as u8, 'm' as u8])
    }

    /// Turns reverse video on.
    pub fn setrev(&mut self)
        ensures
            final(self).0@ == old(self).0@ + seq![ESC, '[' as u8, '7' as u8, 'm' as u8],
    {
        self.ext(&[ESC, '[' as u8, '7' as u8, 'm' as u8])
    }

    /// Turns bold off.
    pub fn unsetbold(&mut self)
        ensures
            final(self).0@ == old(self).0@ + seq![ESC, '[' as u8, '2' as u8, '1' as u8, 'm' as u8],
    {
        self.ext(&[ESC, '[' as u8, '2' as u8, '1' as u8, 'm' as u8])
    }

    /// Turns reverse video off.
    pub fn unsetrev(&mut self)
        ensures
            final(self).0@ == old(self).0@ + seq![ESC, '[' as u8, '2' as u8, '7' as u8, 'm' as u8],
    {
        self.ext(&[ESC, '[' as u8, '2' as u8, '7' as u8, 'm' as u8])
    }

    /// Turns line wrap on.
    pub fn wrapon(&mut self)
        ensures
            final(self).0@ == old(self).0@ + seq![ESC, '7' as u8, 'h' as u8],
    {
        self.ext(&[ESC, '7' as u8, 'h' as u8])
    }

    /// Turns line wrap off.
    pub fn wrapoff(&mut self)
        ensures
            final(self).0@ == old(self).0@ + seq![ESC, '7' as u8, 'l' as u8],
    {
        self.ext(&[ESC, '7' as u8, 'l' as u8])
    }

    /// Moves the cursor up one row.
    pub fn up1(&mut self)
        ensures
            final(self).0@ == old(self).0@ + seq![ESC, '[' as u8, 'A' as u8],
    {
        self.ext(&[ESC, '[' as u8, 'A' as u8])
    }

    /// Moves the cursor down one row.
    pub fn down1(&mut self)
        ensures
            final(self).0@ == old(self).0@ + seq![ESC, '[' as u8, 'B' as u8],
    {
        self.ext(&[ESC, '[' as u8, 'B' as u8])
    }

    /// Moves the cursor right one column.
    pub fn right1(&mut self)
        ensures
            final(self).0@ == old(self).0@ + seq![ESC, '[' as u8, 'C' as u8],
    {
        self.ext(&[ESC, '[' as u8, 'C' as u8])
    }

    /// Moves the cursor left one column.
    pub fn left1(&mut self)
        ensures
            final(self).0@ == old(self).0@ + seq![ESC, '[' as u8, 'D' as u8],
    {
        self.ext(&[ESC, '[' as u8, 'D' as u8])
    }

    /// Appends `ESC [ n ch`.
    fn u16ch(&mut self, ch: u8, n: u16)
        ensures
            final(self).0@ == old(self).0@ + csi_num(n as nat, ch),
    {
        self.ext(&[ESC, '[' as u8]);
        extend_from_u16(&mut self.0, n);
        self.0.push(ch);
    }

    /// Moves the cursor up `n` rows.
    pub fn up(&mut self, n: u16)
        ensures
            final(self).0@ == old(self).0@ + csi_num(n as nat, 'A' as u8),
    {
        self.u16ch('A' as u8, n)
    }

    /// Moves the cursor down `n` rows.
    pub fn down(&mut self, n: u16)
        ensures
            final(self).0@ == old(self).0@ + csi_num(n as nat, 'B' as u8),
    {
        self.u16ch('B' as u8, n)
    }

    /// Moves the cursor right `n` columns.
    pub fn right(&mut self, n: u16)
        ensures
            final(self).0@ == old(self).0@ + csi_num(n as nat, 'C' as u8),
    {
        self.u16ch('C' as u8, n)
    }

    /// Moves the cursor left `n` columns.
    pub fn left(&mut self, n: u16)
        ensures
            final(self).0@ == old(self).0@ + csi_num(n as nat, 'D' as u8),
    {
        self.u16ch('D' as u8, n)
    }

    /// Moves the cursor to the start of the line `n` rows down.
    pub fn x1down(&mut self, n: u16)
        ensures
            final(self).0@ == old(self).0@ + csi_num(n as nat, 'E' as u8),
    {
        self.u16ch('E' as u8, n)
    }

    /// Moves the cursor to the start of the line `n` rows up.
    pub fn x1up(&mut self, n: u16)
        ensures
            final(self).0@ == old(self).0@ + csi_num(n as nat, 'F' as u8),
    {
        self.u16ch('F' as u8, n)
    }

    /// Moves the cursor to column `x` of its row.
    pub fn setx(&mut self, x: u16)
        ensures
            final(self).0@ == old(self).0@ + csi_num(x as nat, 'G' as u8),
    {
        self.u16ch('G' as u8, x)
    }

    /// Moves the cursor to row `y` of its column.
    pub fn sety(&mut self, y: u16)
        ensures
            final(self).0@ == old(self).0@ + csi_num(y as nat, 'd' as u8),
    {
        self.u16ch('d' as u8, y)
    }

    /// Moves the cursor to the top left corner.
    pub fn resetxy(&mut self)
        ensures
            final(self).0@ == old(self).0@ + seq![ESC, '[' as u8, 'H' as u8],
    {
        self.ext(&[ESC, '[' as u8, 'H' as u8])
    }

    /// Moves the cursor to column `x` of row `y`, both counted from 1.
    pub fn mv(&mut self, x: u16, y: u16)
        ensures
            final(self).0@ == old(self).0@ + cup(y as nat, x as nat),
    {
        self.ext(&[ESC, '[' as u8]);
        extend_from_u16(&mut self.0, y);
        self.0.push(';' as u8);
        extend_from_u16(&mut self.0, x);
        self.0.push('H' as u8);
    }

    /// Erases the screen from the cursor down.
    pub fn erasebelow(&mut self)
        ensures
            final(self).0@ == old(self).0@ + seq![ESC, '[' as u8, 'J' as u8],
    {
        self.ext(&[ESC, '[' as u8, 'J' as u8])
    }

    /// Erases the screen from the cursor up.
    pub fn eraseabove(&mut self)
        ensures
            final(self).0@ == old(self).0@ + seq![ESC, '[' as u8, '1' as u8, 'J' as u8],
    {
        self.ext(&[ESC, '[' as u8, '1' as u8, 'J' as u8])
    }

    /// Erases the whole screen.
    pub fn eraseall(&mut self)
        ensures
            final(self).0@ == old(self).0@ + seq![ESC, '[' as u8, '2' as u8, 'J' as u8],
    {
        self.ext(&[ESC, '[' as u8, '2' as u8, 'J' as u8])
    }

    /// Sends the line erase without a parameter.
    pub fn eraseleft(&mut self)
        ensures
            final(self).0@ == old(self).0@ + seq![ESC, '[' as u8, 'K' as u8],
    {
        self.ext(&[ESC, '[' as u8, 'K' as u8])
    }

    /// Sends the line erase with parameter 1.
    pub fn eraseright(&mut self)
        ensures
            final(self).0@ == old(self).0@ + seq![ESC, '[' as u8, '1' as u8, 'K' as u8],
    {
        self.ext(&[ESC, '[' as u8, '1' as u8, 'K' as u8])
    }

    /// Erases the whole line.
    pub fn eraseline(&mut self)
        ensures
            final(self).0@ == old(self).0@ + seq![ESC, '[' as u8, '2' as u8, 'K' as u8],
    {
        self.ext(&[ESC, '[' as u8, '2' as u8, 'K' as u8])
    }

    /// Deletes the line under the cursor.
    pub fn delln(&mut self)
        ensures
            final(self).0@ == old(self).0@ + seq![ESC, '[' as u8, 'M' as u8],
    {
        self.ext(&[ESC, '[' as u8, 'M' as u8])
    }

    /// Deletes `n` lines from the cursor down.
    pub fn dellns(&mut self, n: u16)
        ensures
            final(self).0@ == old(self).0@ + csi_num(n as nat, 'M' as u8),
    {
        self.u16ch('M' as u8, n)
    }

    /// Sends the scroll-up sequence without a parameter.
    pub fn delch(&mut self)
        ensures
            final(self).0@ == old(self).0@ + seq![ESC, '[' as u8, 'S' as u8],
    {
        self.ext(&[ESC, '[' as u8, 'S' as u8])
    }

    /// Sends the scroll-up sequence with parameter `n`.
    pub fn delchs(&mut self, n: u16)
        ensures
            final(self).0@ == old(self).0@ + csi_num(n as nat, 'S' as u8),
    {
        self.u16ch('S' as u8, n)
    }

    /// Shows the cursor.
    pub fn showcur(&mut self)
        ensures
            final(self).0@ == old(self).0@ + seq![ESC, '[' as u8, '?' as u8, '2' as u8, '5' as u8, 'h' as u8],
    {
        self.ext(&[ESC, '[' as u8, '?' as u8, '2' as u8, '5' as u8, 'h' as u8])
    }

    /// Hides the cursor.
    pub fn hidecur(&mut self)
        ensures
            final(self).0@ == old(self).0@ + seq![ESC, '[' as u8, '?' as u8, '2' as u8, '5' as u8, 'l' as u8],
    {
        self.ext(&[ESC, '[' as u8, '?' as u8, '2' as u8, '5' as u8, 'l' as u8])
    }

    /// Fills the screen with the alignment pattern.
    pub fn spame(&mut self)
        ensures
            final(self).0@ == old(self).0@ + seq![ESC, '#' as u8, '8' as u8],
    {
        self.ext(&[ESC, '#' as u8, '8' as u8])
    }

    /// Selects `rgb` as the foreground colour.
    pub fn setfg<TColor: RGB>(&mut self, rgb: TColor)
        ensures
            final(self).0@ == old(self).0@ + rgb.fg_code(),
    {
        rgb.fg(&mut self.0);
    }

    /// Selects `rgb` as the background colour.
    pub fn setbg<TColor: RGB>(&mut self, rgb: TColor)
        ensures
            final(self).0@ == old(self).0@ + rgb.bg_code(),
    {
        rgb.bg(&mut self.0);
    }

    /// Appends the UTF-8 encoding of `c`.
    pub fn prchr(&mut self, c: char)
        ensures
            final(self).0@ == old(self).0@ + utf8(c),
    {
        broadcast use vstd::utf8::char_is_scalar;

        let u = c as u32;
        if u <= 0x7F {
            self.0.push((u & 0x7F) as u8);
        } else if u <= 0x7FF {
            self.0.push(0xC0 | ((u >> 6) & 0x1F) as u8);
            self.0.push(0x80 | (u & 0x3F) as u8);
        } else if u <= 0xFFFF {
            self.0.push(0xE0 | ((u >> 12) & 0x0F) as u8);
            self.0.push(0x80 | ((u >> 6) & 0x3F) as u8);
            self.0.push(0x80 | (u & 0x3F) as u8);
        } else {
            self.0.push(0xF0 | ((u >> 18) & 0x7) as u8);
            self.0.push(0x80 | ((u >> 12) & 0x3F) as u8);
            self.0.push(0x80 | ((u >> 6) & 0x3F) as u8);
            self.0.push(0x80 | (u & 0x3F) as u8);
        }
    }

    /// Appends the text as its UTF-8 bytes.
    pub fn print(&mut self, s: &str)
        ensures
            final(self).0@ == old(self).0@ + vstd::utf8::encode_utf8(s@),
    {
        self.ext(s.as_bytes())
    }

    /// Drops what is buffered and leaves only the full terminal reset,
    /// `ESC c`.
    pub fn clear(&mut self)
        ensures
            final(self).0@ == seq![ESC, 'c' as u8],
    {
        self.0.clear();
        self.ext(&[ESC, 'c' as u8])
    }

    /// Hands out everything that is buffered, for the caller to write to
    /// the terminal, and leaves the buffer empty.
    pub fn take(&mut self) -> (out: Vec<u8>)
        ensures
            out@ == old(self).0@,
            final(self).0@ == Seq::<u8>::empty(),
    {
        let mut out = Vec::new();
        core::mem::swap(&mut self.0, &mut out);
        out
    }
}

} // verus!
