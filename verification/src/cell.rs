//! Character cells: one character, its attributes and its two colours.

use vstd::prelude::*;
use vstd::std_specs::cmp::PartialEqSpecImpl;
use crate::x1b::RGB;

verus! {

/// The bit of the bold attribute.
pub const TA_BOLD: u8 = 1;

/// The bit of the dim attribute.
pub const TA_DIM: u8 = 2;

/// The bit of the underline attribute.
pub const TA_UNDER: u8 = 4;

/// The bit of the blink attribute.
pub const TA_BLINK: u8 = 8;

/// The bit of the reverse-video attribute.
pub const TA_REV: u8 = 16;

/// The bits of all five attributes.
pub const TA_ALL: u8 = 31;

/// A set of text attributes, one bit each.
#[derive(Copy, Clone, PartialEq, Eq, Structural, Debug)]
pub struct TextAttr {
    pub bits: u8,
}

impl Default for TextAttr {
    fn default() -> (r: Self)
        ensures
            r.bits == 0,
    {
        TextAttr { bits: 0 }
    }
}

impl TextAttr {
    /// Whether every bit of `other` is set in `self`.
    pub open spec fn has(self, other: TextAttr) -> bool {
        self.bits & other.bits == other.bits
    }

    /// The set without any attribute.
    pub fn empty() -> (r: TextAttr)
        ensures
            r.bits == 0,
    {
        TextAttr { bits: 0 }
    }

    /// The set of all five attributes.
    pub fn all() -> (r: TextAttr)
        ensures
            r.bits == TA_ALL,
    {
        TextAttr { bits: TA_ALL }
    }

    /// The bits of the set.
    pub fn bits(&self) -> (b: u8)
        ensures
            b == self.bits,
    {
        self.bits
    }

    /// The set with exactly the given bits, if each of them stands for an
    /// attribute.
    pub fn from_bits(bits: u8) -> (r: Option<TextAttr>)
        ensures
            r == if bits & !TA_ALL == 0 {
                Some(TextAttr { bits })
            } else {
                None
            },
    {
        if bits & !TA_ALL == 0 {
            Some(TextAttr { bits })
        } else {
            None
        }
    }

    /// The set with the given bits, without those that stand for no
    /// attribute.
    pub fn from_bits_truncate(bits: u8) -> (r: TextAttr)
        ensures
            r.bits == bits & TA_ALL,
    {
        TextAttr { bits: bits & TA_ALL }
    }

    /// Whether no attribute is set.
    pub fn is_empty(&self) -> (b: bool)
        ensures
            b == (self.bits == 0),
    {
        self.bits == 0
    }

    /// Whether all five attributes are set, and no other bit.
    pub fn is_all(&self) -> (b: bool)
        ensures
            b == (self.bits == TA_ALL),
    {
        self.bits == TA_ALL
    }

    /// Whether some attribute of `other` is set in `self`.
    pub fn intersects(&self, other: TextAttr) -> (b: bool)
        ensures
            b == (self.bits & other.bits != 0),
    {
        self.bits & other.bits != 0
    }

    /// Whether every attribute of `other` is set in `self`.
    pub fn contains(&self, other: TextAttr) -> (b: bool)
        ensures
            b == self.has(other),
    {
        self.bits & other.bits == other.bits
    }

    /// Sets the attributes of `other`.
    pub fn insert(&mut self, other: TextAttr)
        ensures
            final(self).bits == old(self).bits | other.bits,
    {
        self.bits = self.bits | other.bits;
    }

    /// Unsets the attributes of `other`.
    pub fn remove(&mut self, other: TextAttr)
        ensures
            final(self).bits == old(self).bits & !other.bits,
    {
        self.bits = self.bits & !other.bits;
    }

    /// Sets the attributes of `other` that are not set, and unsets those
    /// that are.
    pub fn toggle(&mut self, other: TextAttr)
        ensures
            final(self).bits == old(self).bits ^ other.bits,
    {
        self.bits = self.bits ^ other.bits;
    }

    /// Sets the attributes of `other` where `value` holds, and unsets them
    /// where it does not.
    pub fn set(&mut self, other: TextAttr, value: bool)
        ensures
            final(self).bits == if value {
                old(self).bits | other.bits
            } else {
                old(self).bits & !other.bits
            },
    {
        if value {
            self.insert(other);
        } else {
            self.remove(other);
        }
    }

    /// Unsets every attribute, and tells whether any was set.
    pub fn clear(&mut self) -> (ret: bool)
        ensures
            final(self).bits == 0,
            ret == (old(self).bits != 0),
    {
        let ret = self.bits != 0;
        self.bits = 0;
        ret
    }
}

/// One cell of the grid.
#[derive(Debug)]
pub struct Char<TColor: RGB> {
    pub fg: TColor,
    pub bg: TColor,
    pub ch: char,
    pub attr: TextAttr,
}

impl<TColor: RGB + Copy> Copy for Char<TColor> {
}

impl<TColor: RGB + Copy> Clone for Char<TColor> {
    fn clone(&self) -> (r: Self)
        ensures
            r == *self,
    {
        *self
    }
}

impl<TColor: RGB> PartialEq for Char<TColor> {
    fn eq(&self, other: &Self) -> (r: bool) {
        self.ch == other.ch && self.attr == other.attr && self.fg.same(&other.fg) && self.bg.same(
            &other.bg,
        )
    }
}

impl<TColor: RGB> PartialEqSpecImpl for Char<TColor> {
    open spec fn obeys_eq_spec() -> bool {
        true
    }

    open spec fn eq_spec(&self, other: &Self) -> bool {
        *self == *other
    }
}

impl<TColor: RGB> Eq for Char<TColor> {
}

impl<TColor: RGB + Default> Default for Char<TColor> {
    /// The NUL character without attributes, in the default colours.
    fn default() -> (r: Self)
        ensures
            r.ch == '\0',
            r.attr.bits == 0,
            call_ensures(TColor::default, (), r.fg),
            call_ensures(TColor::default, (), r.bg),
    {
        Char { ch: '\0', attr: TextAttr::empty(), fg: TColor::default(), bg: TColor::default() }
    }
}

impl<TColor: RGB + Default> From<char> for Char<TColor> {
    /// The character without attributes, in the default colours.
    fn from(ch: char) -> (r: Self)
        ensures
            r.ch == ch,
            r.attr.bits == 0,
            call_ensures(TColor::default, (), r.fg),
            call_ensures(TColor::default, (), r.bg),
    {
        Char { ch, attr: TextAttr::empty(), fg: TColor::default(), bg: TColor::default() }
    }
}

/// What `from` returns depends on what `TColor::default` returns, which no
/// spec function names: the contract of `from` says it instead.
impl<TColor: RGB + Default> vstd::std_specs::convert::FromSpecImpl<char> for Char<TColor> {
    open spec fn obeys_from_spec() -> bool {
        false
    }

    open spec fn from_spec(ch: char) -> Self {
        arbitrary()
    }
}

impl<TColor: RGB + Default> Char<TColor> {
    /// The character with the given attributes, in the default colours.
    pub fn new_with_attr(ch: char, ta: TextAttr) -> (r: Self)
        ensures
            r.ch == ch,
            r.attr == ta,
            call_ensures(TColor::default, (), r.fg),
            call_ensures(TColor::default, (), r.bg),
    {
        Char { ch, attr: ta, fg: TColor::default(), bg: TColor::default() }
    }
}

impl<TColor: RGB> Char<TColor> {
    /// The character in the given colours, without attributes.
    pub fn new_with_color(ch: char, fg: TColor, bg: TColor) -> (r: Self)
        ensures
            r == (Char { ch, attr: TextAttr { bits: 0 }, fg, bg }),
    {
        Char { ch, attr: TextAttr::empty(), fg, bg }
    }

    /// The character with the given attributes and colours.
    pub fn new(ch: char, ta: TextAttr, fg: TColor, bg: TColor) -> (r: Self)
        ensures
            r == (Char { ch, attr: ta, fg, bg }),
    {
        Char { ch, attr: ta, fg, bg }
    }

    pub fn get_char(&self) -> (ch: char)
        ensures
            ch == self.ch,
    {
        self.ch
    }

    pub fn get_attr(&self) -> (ta: TextAttr)
        ensures
            ta == self.attr,
    {
        self.attr
    }

    /// Replaces the character and keeps attributes and colours.
    pub fn set_char(&mut self, ch: char)
        ensures
            *final(self) == (Char { ch, ..*old(self) }),
    {
        self.ch = ch;
    }

    /// Replaces the attributes and keeps character and colours.
    pub fn set_attr(&mut self, ta: TextAttr)
        ensures
            *final(self) == (Char { attr: ta, ..*old(self) }),
    {
        self.attr = ta;
    }
}

} // verus!
