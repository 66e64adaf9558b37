//! Asking the terminal where its cursor stands: the requests to send, and
//! the parser for the report that comes back.
//!
//! The report is `ESC [ row ; col R`, both numbers in decimal and counted
//! from 1. It arrives on the stream that also carries whatever is typed, so
//! the parser passes over everything that is no report. Nothing here opens
//! or reads the terminal: the caller writes `esc` to it and hands over
//! what it answers, byte by byte or in one piece.

use vstd::prelude::*;
use crate::decimal::{decimal, is_digit, lemma_decimal_digits};
use crate::x1b::{csi, cup, ESC};

verus! {

/// How far into a report the parser is.
#[derive(Copy, Clone, PartialEq, Eq, Structural, Debug)]
pub enum Curp {
    /// Outside a report.
    Nil,
    /// After `ESC`.
    Esc,
    /// After `ESC [`.
    Esc2,
    /// In the digits of the row, with its value so far.
    Y(u16),
    /// After the `;`, with the row and the value of the column so far.
    X(u16, u16),
}

/// Why no position was found.
#[derive(Copy, Clone, PartialEq, Eq, Structural, Debug)]
pub enum QueryError {
    /// The terminal's answer ended before a report was complete.
    EndOfTty,
}

/// The value of `v` with the digit `b` appended to its numeral.
pub open spec fn shifted(v: u16, b: u8) -> int {
    v * 10 + (b - 48)
}

/// The state after the byte `b` was read in the state `s`.
///
/// Any byte that cannot go on with a report leads back to `Nil`, and so
/// does a digit that makes a number too large for 16 bits. The `R` that
/// ends a report leads back to `Nil` too.
pub open spec fn next_state(s: Curp, b: u8) -> Curp {
    match s {
        Curp::Nil => if b == ESC {
            Curp::Esc
        } else {
            Curp::Nil
        },
        Curp::Esc => if b == '[' as u8 {
            Curp::Esc2
        } else {
            Curp::Nil
        },
        Curp::Esc2 => if is_digit(b) {
            Curp::Y((b - 48) as u16)
        } else {
            Curp::Nil
        },
        Curp::Y(v) => if is_digit(b) && shifted(v, b) <= u16::MAX {
            Curp::Y(shifted(v, b) as u16)
        } else if b == ';' as u8 {
            Curp::X(v, 0)
        } else {
            Curp::Nil
        },
        Curp::X(row, v) => if is_digit(b) && shifted(v, b) <= u16::MAX {
            Curp::X(row, shifted(v, b) as u16)
        } else {
            Curp::Nil
        },
    }
}

/// The position `(column, row)` that the byte `b` completes in the state
/// `s`: the one `R` after the digits of the column does so.
pub open spec fn report(s: Curp, b: u8) -> Option<(u16, u16)> {
    match s {
        Curp::X(row, col) => if b == 'R' as u8 {
            Some((col, row))
        } else {
            None
        },
        _ => None,
    }
}

/// The first position that `bytes` complete when read from the state `s`
/// on, if they complete one.
pub open spec fn first_report(s: Curp, bytes: Seq<u8>) -> Option<(u16, u16)>
    decreases bytes.len(),
{
    if bytes.len() == 0 {
        None
    } else if report(s, bytes[0]) is Some {
        report(s, bytes[0])
    } else {
        first_report(next_state(s, bytes[0]), bytes.drop_first())
    }
}

/// The state after `bytes` were read from the state `s` on, where they
/// complete no position.
pub open spec fn state_after(s: Curp, bytes: Seq<u8>) -> Curp
    decreases bytes.len(),
{
    if bytes.len() == 0 {
        s
    } else {
        state_after(next_state(s, bytes[0]), bytes.drop_first())
    }
}

/// The request for a cursor position report, `ESC [ 6 n`.
pub open spec fn report_request() -> Seq<u8> {
    seq![ESC, '[' as u8, '6' as u8, 'n' as u8]
}

/// The move to row 999, column 999, `ESC [ 999 ; 999 H`: further than
/// terminals reach, so that the cursor ends in the bottom right corner.
pub open spec fn far_corner() -> Seq<u8> {
    cup(999, 999)
}

/// Where a cursor that is sent to the place `to` ends on a terminal that
/// has `limit` places in that direction: the terminal stops it at its edge.
pub open spec fn stopped(to: u16, limit: u16) -> u16 {
    if to > limit {
        limit
    } else {
        to
    }
}

/// The report that a terminal sends for a cursor in the given row and
/// column, `ESC [ row ; col R`.
pub open spec fn report_bytes(row: u16, col: u16) -> Seq<u8> {
    csi() + decimal(row as nat) + seq![';' as u8] + decimal(col as nat) + seq!['R' as u8]
}

/// Reading `a` and then `b` is reading `a + b`: the first report is the
/// one of `a`, if there is one, else the first of `b` read from where `a`
/// left off.
pub proof fn lemma_read_append(s: Curp, a: Seq<u8>, b: Seq<u8>)
    ensures
        first_report(s, a + b) == match first_report(s, a) {
            Some(xy) => Some(xy),
            None => first_report(state_after(s, a), b),
        },
        state_after(s, a + b) == state_after(state_after(s, a), b),
    decreases a.len(),
{
    if a.len() > 0 {
        assert((a + b).drop_first() =~= a.drop_first() + b);
        lemma_read_append(next_state(s, a[0]), a.drop_first(), b);
    }
}

/// Reading one byte.
proof fn lemma_read_one(s: Curp, b: u8)
    ensures
        first_report(s, seq![b]) == report(s, b),
        state_after(s, seq![b]) == next_state(s, b),
{
    assert(seq![b].drop_first() =~= Seq::<u8>::empty());
    assert(first_report(next_state(s, b), Seq::<u8>::empty()) is None);
    assert(state_after(next_state(s, b), Seq::<u8>::empty()) == next_state(s, b));
}

/// After `ESC [`, the numeral of `n` leaves the parser in the digits of
/// the row with the value `n`.
proof fn lemma_row_digits(n: nat)
    requires
        n <= u16::MAX,
    ensures
        first_report(Curp::Esc2, decimal(n)) is None,
        state_after(Curp::Esc2, decimal(n)) == Curp::Y(n as u16),
    decreases n,
{
    if n < 10 {
        lemma_read_one(Curp::Esc2, decimal(n)[0]);
    } else {
        let last = decimal(n).last();
        lemma_row_digits(n / 10);
        lemma_read_append(Curp::Esc2, decimal(n / 10), seq![last]);
        lemma_read_one(Curp::Y((n / 10) as u16), last);
        assert(decimal(n) =~= decimal(n / 10) + seq![last]);
    }
}

/// After the `;`, the numeral of `n` leaves the parser in the digits of
/// the column with the value `n`.
proof fn lemma_col_digits(row: u16, n: nat)
    requires
        n <= u16::MAX,
    ensures
        first_report(Curp::X(row, 0), decimal(n)) is None,
        state_after(Curp::X(row, 0), decimal(n)) == Curp::X(row, n as u16),
    decreases n,
{
    if n < 10 {
        lemma_read_one(Curp::X(row, 0), decimal(n)[0]);
    } else {
        let last = decimal(n).last();
        lemma_col_digits(row, n / 10);
        lemma_read_append(Curp::X(row, 0), decimal(n / 10), seq![last]);
        lemma_read_one(Curp::X(row, (n / 10) as u16), last);
        assert(decimal(n) =~= decimal(n / 10) + seq![last]);
    }
}

/// The parser finds in a report the position that the report was written
/// for: whatever row and column a terminal reports, reading its report
/// gives that column and that row.
pub proof fn lemma_report_round_trip(row: u16, col: u16)
    ensures
        first_report(Curp::Nil, report_bytes(row, col)) == Some((col, row)),
{
    let a = csi();
    let b = decimal(row as nat);
    let c = seq![';' as u8];
    let d = decimal(col as nat);
    let e = seq!['R' as u8];
    lemma_read_one(Curp::Nil, ESC);
    lemma_read_one(Curp::Esc, '[' as u8);
    lemma_read_append(Curp::Nil, seq![ESC], seq!['[' as u8]);
    assert(a =~= seq![ESC] + seq!['[' as u8]);
    lemma_row_digits(row as nat);
    lemma_read_append(Curp::Nil, a, b);
    lemma_read_one(Curp::Y(row), ';' as u8);
    lemma_read_append(Curp::Nil, a + b, c);
    lemma_col_digits(row, col as nat);
    lemma_read_append(Curp::Nil, a + b + c, d);
    lemma_read_append(Curp::Nil, a + b + c + d, e);
}

/// Bytes without an `ESC` among them leave a parser that is outside a
/// report where it is, and complete no report.
pub proof fn lemma_noise(noise: Seq<u8>)
    requires
        forall|i: int| 0 <= i < noise.len() ==> noise[i] != ESC,
    ensures
        first_report(Curp::Nil, noise) is None,
        state_after(Curp::Nil, noise) == Curp::Nil,
    decreases noise.len(),
{
    if noise.len() > 0 {
        lemma_noise(noise.drop_first());
    }
}

/// A report is found behind noise: whatever was read before, as long as it
/// completed no report and left the parser outside of one, the position of
/// the report that follows is found. Bytes without an `ESC` among them are
/// such noise, as `lemma_noise` has it.
pub proof fn lemma_report_behind_noise(noise: Seq<u8>, row: u16, col: u16)
    requires
        first_report(Curp::Nil, noise) is None,
        state_after(Curp::Nil, noise) == Curp::Nil,
    ensures
        first_report(Curp::Nil, noise + report_bytes(row, col)) == Some((col, row)),
{
    lemma_report_round_trip(row, col);
    lemma_read_append(Curp::Nil, noise, report_bytes(row, col));
}

/// The size of the terminal is found by way of the far corner: a terminal
/// of `w` columns and `h` rows, neither more than 999, stops the cursor that
/// is sent to row 999, column 999 at its last row and column, and reading
/// the report of that place gives `(w, h)`.
pub proof fn lemma_far_corner_report(w: u16, h: u16)
    requires
        w <= 999,
        h <= 999,
    ensures
        first_report(Curp::Nil, report_bytes(stopped(999, h), stopped(999, w))) == Some((w, h)),
{
    lemma_report_round_trip(h, w);
}

/// Without an `R` no report is complete.
pub proof fn lemma_no_report_without_r(s: Curp, bytes: Seq<u8>)
    requires
        forall|i: int| 0 <= i < bytes.len() ==> bytes[i] != 'R' as u8,
    ensures
        first_report(s, bytes) is None,
    decreases bytes.len(),
{
    if bytes.len() > 0 {
        lemma_no_report_without_r(next_state(s, bytes[0]), bytes.drop_first());
    }
}

/// A report that is cut short gives no position: the stream has ended.
pub proof fn lemma_truncated_report(s: Curp, row: u16, col: u16, n: int)
    requires
        0 <= n < report_bytes(row, col).len(),
    ensures
        first_report(s, report_bytes(row, col).take(n)) is None,
{
    lemma_decimal_digits(row as nat);
    lemma_decimal_digits(col as nat);
    lemma_no_report_without_r(s, report_bytes(row, col).take(n));
}

/// The value of an ASCII digit: how far `x` lies behind the digit `0`,
/// which it must not lie before.
pub fn ascii2digit(x: u8) -> (d: u16)
    requires
        x >= 48,
    ensures
        d == x - 48,
{
    (x - 48) as u16
}

/// Appends a digit to the numeral of `v`, if the number still fits.
fn shift(v: u16, b: u8) -> (r: Option<u16>)
    requires
        is_digit(b),
    ensures
        r == if shifted(v, b) <= u16::MAX {
            Some(shifted(v, b) as u16)
        } else {
            None::<u16>
        },
{
    let d = ascii2digit(b);
    if v <= 6553 && (v < 6553 || d <= 5) {
        Some(v * 10 + d)
    } else {
        None
    }
}

impl Curp {
    /// Reads one byte: the state to go on with, and the position
    /// `(column, row)` if the byte completed a report.
    pub fn step(self, b: u8) -> (r: (Curp, Option<(u16, u16)>))
        ensures
            r.0 == next_state(self, b),
            r.1 == report(self, b),
    {
        let digit = 48 <= b && b <= 57;
        match self {
            Curp::Nil => if b == ESC {
                (Curp::Esc, None)
            } else {
                (Curp::Nil, None)
            },
            Curp::Esc => if b == '[' as u8 {
                (Curp::Esc2, None)
            } else {
                (Curp::Nil, None)
            },
            Curp::Esc2 => if digit {
                (Curp::Y(ascii2digit(b)), None)
            } else {
                (Curp::Nil, None)
            },
            Curp::Y(y) => if digit {
                match shift(y, b) {
                    Some(v) => (Curp::Y(v), None),
                    None => (Curp::Nil, None),
                }
            } else if b == ';' as u8 {
                (Curp::X(y, 0), None)
            } else {
                (Curp::Nil, None)
            },
            Curp::X(y, x) => if b == 'R' as u8 {
                (Curp::Nil, Some((x, y)))
            } else if digit {
                match shift(x, b) {
                    Some(v) => (Curp::X(y, v), None),
                    None => (Curp::Nil, None),
                }
            } else {
                (Curp::Nil, None)
            },
        }
    }
}

/// A question to the terminal: the bytes that ask it, and how far the
/// answer has been read.
pub struct Query {
    pub esc: Vec<u8>,
    pub state: Curp,
}

impl Query {
    /// Reads one more byte of the answer, and gives the position
    /// `(column, row)` once the byte completes a report.
    pub fn feed(&mut self, b: u8) -> (r: Option<(u16, u16)>)
        ensures
            r == report(old(self).state, b),
            final(self).state == next_state(old(self).state, b),
            final(self).esc == old(self).esc,
    {
        let (state, r) = self.state.step(b);
        self.state = state;
        r
    }

    /// Reads the answer up to the end of the first report in it, and gives
    /// the position `(column, row)` of that report. An answer that ends
    /// before a report is complete is an error; what was read of it is
    /// kept, so that the rest can still be fed.
    pub fn read(&mut self, reply: &[u8]) -> (r: Result<(u16, u16), QueryError>)
        ensures
            r == match first_report(old(self).state, reply@) {
                Some(xy) => Ok::<(u16, u16), QueryError>(xy),
                None => Err::<(u16, u16), QueryError>(QueryError::EndOfTty),
            },
            r is Err ==> final(self).state == state_after(old(self).state, reply@),
            r is Ok ==> final(self).state == Curp::Nil,
            final(self).esc == old(self).esc,
    {
        let mut i: usize = 0;
        assert(reply@.skip(0) =~= reply@);
        while i < reply.len()
            invariant
                i <= reply.len(),
                self.esc == old(self).esc,
                first_report(old(self).state, reply@) == first_report(self.state, reply@.skip(i as int)),
                state_after(old(self).state, reply@) == state_after(self.state, reply@.skip(i as int)),
            decreases reply.len() - i,
        {
            proof {
                assert(reply@.skip(i as int).drop_first() =~= reply@.skip(i + 1));
            }
            match self.feed(reply[i]) {
                Some(xy) => {
                    return Ok(xy);
                },
                None => {},
            }
            i += 1;
        }
        Err(QueryError::EndOfTty)
    }
}

/// The query that sends `esc` and reads a report from the start.
pub fn get_cursor_xy_with_esc(esc: &[u8]) -> (q: Query)
    ensures
        q.esc@ == esc@,
        q.state == Curp::Nil,
{
    let mut v: Vec<u8> = Vec::new();
    v.extend_from_slice(esc);
    Query { esc: v, state: Curp::Nil }
}

/// The query for the place of the cursor: the report request alone. The
/// position that comes back is the cursor's column and row.
pub fn get_cursor_xy() -> (q: Query)
    ensures
        q.esc@ == report_request(),
        q.state == Curp::Nil,
{
    get_cursor_xy_with_esc(&[ESC, '[' as u8, '6' as u8, 'n' as u8])
}

/// The query for the size of the terminal, which leaves the cursor in the
/// bottom right corner: the move to the far corner, then the report
/// request. The position that comes back is the width and the height.
pub fn get_tty_wh_dirty() -> (q: Query)
    ensures
        q.esc@ == far_corner() + report_request(),
        q.state == Curp::Nil,
{
    let q = get_cursor_xy_with_esc(
        &[
            ESC,
            '[' as u8,
            '9' as u8,
            '9' as u8,
            '9' as u8,
            ';' as u8,
            '9' as u8,
            '9' as u8,
            '9' as u8,
            'H' as u8,
            ESC,
            '[' as u8,
            '6' as u8,
            'n' as u8,
        ],
    );
    proof {
        reveal_with_fuel(decimal, 3);
    }
    q
}

/// The query for the size of the terminal, which puts the cursor back: the
/// save `ESC 7`, the move to the far corner, the report request, the
/// restore `ESC 8`. The position that comes back is the width and the
/// height.
pub fn get_tty_wh() -> (q: Query)
    ensures
        q.esc@ == seq![ESC, '7' as u8] + far_corner() + report_request() + seq![ESC, '8' as u8],
        q.state == Curp::Nil,
{
    let q = get_cursor_xy_with_esc(
        &[
            ESC,
            '7' as u8,
            ESC,
            '[' as u8,
            '9' as u8,
            '9' as u8,
            '9' as u8,
            ';' as u8,
            '9' as u8,
            '9' as u8,
            '9' as u8,
            'H' as u8,
            ESC,
            '[' as u8,
            '6' as u8,
            'n' as u8,
            ESC,
            '8' as u8,
        ],
    );
    proof {
        reveal_with_fuel(decimal, 3);
    }
    q
}

} // verus!
