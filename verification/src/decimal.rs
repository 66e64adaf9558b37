//! Decimal numerals as terminals read and write them in escape sequences.

use vstd::prelude::*;

verus! {

/// The ASCII digit for `d`, meaningful for `d < 10`.
pub open spec fn digit(d: nat) -> u8 {
    (48 + d) as u8
}

/// The decimal numeral of `n`: most significant digit first, no leading
/// zero, and the single digit `0` for zero.
pub open spec fn decimal(n: nat) -> Seq<u8>
    decreases n,
{
    if n < 10 {
        seq![digit(n)]
    } else {
        decimal(n / 10).push(digit(n % 10))
    }
}

/// Whether `b` is one of the ASCII digits `0` to `9`.
pub open spec fn is_digit(b: u8) -> bool {
    48 <= b <= 57
}

/// A numeral is one to five digits long for a 16-bit number, and every
/// byte of it is a digit.
pub proof fn lemma_decimal_digits(n: nat)
    ensures
        decimal(n).len() >= 1,
        n < 10 ==> decimal(n).len() == 1,
        10 <= n < 100 ==> decimal(n).len() == 2,
        100 <= n < 1000 ==> decimal(n).len() == 3,
        1000 <= n < 10000 ==> decimal(n).len() == 4,
        10000 <= n < 100000 ==> decimal(n).len() == 5,
        forall|i: int| 0 <= i < decimal(n).len() ==> is_digit(#[trigger] decimal(n)[i]),
    decreases n,
{
    if n >= 10 {
        lemma_decimal_digits(n / 10);
    }
}

/// Appends the decimal numeral of `x` to `v`.
pub fn extend_from_u8(v: &mut Vec<u8>, x: u8)
    ensures
        final(v)@ == old(v)@ + decimal(x as nat),
{
    if x >= 100 {
        v.push(48 + x / 100);
    }
    if x >= 10 {
        v.push(48 + (x / 10) % 10);
    }
    v.push(48 + x % 10);
    proof {
        reveal_with_fuel(decimal, 3);
    }
}

/// Appends the decimal numeral of `x` to `v`.
pub fn extend_from_u16(v: &mut Vec<u8>, x: u16)
    ensures
        final(v)@ == old(v)@ + decimal(x as nat),
{
    if x >= 10000 {
        v.push(48 + (x / 10000) as u8);
    }
    if x >= 1000 {
        v.push(48 + ((x / 1000) % 10) as u8);
    }
    if x >= 100 {
        v.push(48 + ((x / 100) % 10) as u8);
    }
    if x >= 10 {
        v.push(48 + ((x / 10) % 10) as u8);
    }
    v.push(48 + (x % 10) as u8);
    proof {
        reveal_with_fuel(decimal, 5);
    }
}

/// Appends the decimal numeral of `x` to `v`.
pub fn extend_from_u32(v: &mut Vec<u8>, x: u32)
    ensures
        final(v)@ == old(v)@ + decimal(x as nat),
    decreases x,
{
    if x >= 10 {
        extend_from_u32(v, x / 10);
    }
    v.push(48 + (x % 10) as u8);
}

} // verus!
