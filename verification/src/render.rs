//! Textual forms of the date-time and UUID payloads, as used when a value
//! is rendered into a structured-JSON document.
use vstd::prelude::*;

use crate::value::DateTime;

verus! {

/// The decimal digit character for `n` in 0..10.
pub open spec fn dec_digit(n: int) -> char {
    if n == 0 {
        '0'
    } else if n == 1 {
        '1'
    } else if n == 2 {
        '2'
    } else if n == 3 {
        '3'
    } else if n == 4 {
        '4'
    } else if n == 5 {
        '5'
    } else if n == 6 {
        '6'
    } else if n == 7 {
        '7'
    } else if n == 8 {
        '8'
    } else {
        '9'
    }
}

/// `n` as two decimal digits (modulo 100).
pub open spec fn dec2(n: int) -> Seq<char> {
    seq![dec_digit(n / 10 % 10), dec_digit(n % 10)]
}

/// `n` as four decimal digits (modulo 10000).
pub open spec fn dec4(n: int) -> Seq<char> {
    seq![dec_digit(n / 1000 % 10), dec_digit(n / 100 % 10), dec_digit(n / 10 % 10), dec_digit(
        n % 10,
    )]
}

/// A date-time as `YYYY-MM-DD HH:MM:SS`, dropping sub-second precision.
pub open spec fn date_time_text(dt: DateTime) -> Seq<char> {
    dec4(dt.year as int) + seq!['-'] + dec2(dt.month as int) + seq!['-'] + dec2(dt.day as int)
        + seq![' '] + dec2(dt.hour as int) + seq![':'] + dec2(dt.minute as int) + seq![':'] + dec2(
        dt.second as int,
    )
}

/// Append one decimal digit character.
fn push_digit(out: &mut String, d: u16)
    requires
        d < 10,
    ensures
        final(out)@ == old(out)@.push(dec_digit(d as int)),
{
    let c = if d == 0 {
        '0'
    } else if d == 1 {
        '1'
    } else if d == 2 {
        '2'
    } else if d == 3 {
        '3'
    } else if d == 4 {
        '4'
    } else if d == 5 {
        '5'
    } else if d == 6 {
        '6'
    } else if d == 7 {
        '7'
    } else if d == 8 {
        '8'
    } else {
        '9'
    };
    out.push(c);
}

/// Append `n` as two decimal digits (modulo 100).
fn push2(out: &mut String, n: u8)
    ensures
        final(out)@ == old(out)@ + dec2(n as int),
{
    push_digit(out, ((n / 10) % 10) as u16);
    push_digit(out, (n % 10) as u16);
    proof {
        assert(out@ =~= old(out)@ + dec2(n as int));
    }
}

/// `n` as decimal digits without leading zeros (a lone zero for 0).
pub open spec fn dec_text(n: int) -> Seq<char>
    decreases n,
{
    if n < 10 {
        seq![dec_digit(n)]
    } else {
        dec_text(n / 10).push(dec_digit(n % 10))
    }
}

/// Append `n` in decimal.
pub fn push_usize(out: &mut String, n: usize)
    ensures
        final(out)@ == old(out)@ + dec_text(n as int),
    decreases n,
{
    if n < 10 {
        push_digit(out, n as u16);
        proof {
            assert(out@ =~= old(out)@ + dec_text(n as int));
        }
    } else {
        push_usize(out, n / 10);
        push_digit(out, (n % 10) as u16);
        proof {
            assert(out@ =~= old(out)@ + dec_text(n as int));
        }
    }
}

/// Render a date-time as `"YYYY-MM-DD HH:MM:SS"` text.
pub fn format_date_time(dt: &DateTime) -> (r: String)
    ensures
        r@ == date_time_text(*dt),
{
    let mut out = String::new();
    push_digit(&mut out, (dt.year / 1000) % 10);
    push_digit(&mut out, (dt.year / 100) % 10);
    push_digit(&mut out, (dt.year / 10) % 10);
    push_digit(&mut out, dt.year % 10);
    out.push('-');
    push2(&mut out, dt.month);
    out.push('-');
    push2(&mut out, dt.day);
    out.push(' ');
    push2(&mut out, dt.hour);
    out.push(':');
    push2(&mut out, dt.minute);
    out.push(':');
    push2(&mut out, dt.second);
    proof {
        assert(out@ =~= date_time_text(*dt));
    }
    out
}

/// The lowercase hex digit character for `n` in 0..16.
pub open spec fn hex_digit(n: int) -> char {
    if n == 0 {
        '0'
    } else if n == 1 {
        '1'
    } else if n == 2 {
        '2'
    } else if n == 3 {
        '3'
    } else if n == 4 {
        '4'
    } else if n == 5 {
        '5'
    } else if n == 6 {
        '6'
    } else if n == 7 {
        '7'
    } else if n == 8 {
        '8'
    } else if n == 9 {
        '9'
    } else if n == 10 {
        'a'
    } else if n == 11 {
        'b'
    } else if n == 12 {
        'c'
    } else if n == 13 {
        'd'
    } else if n == 14 {
        'e'
    } else {
        'f'
    }
}

/// `v` as `w` lowercase hex digits, most significant first (modulo `16^w`).
pub open spec fn hex_fixed(v: int, w: nat) -> Seq<char>
    decreases w,
{
    if w == 0 {
        Seq::empty()
    } else {
        hex_fixed(v / 16, (w - 1) as nat).push(hex_digit(v % 16))
    }
}

/// The canonical textual form of a 128-bit UUID: its 32 lowercase hex
/// digits, most significant first, hyphenated into groups of 8-4-4-4-12.
pub open spec fn uuid_canonical(x: u128) -> Seq<char> {
    let h = hex_fixed(x as int, 32);
    h.subrange(0, 8) + seq!['-'] + h.subrange(8, 12) + seq!['-'] + h.subrange(12, 16) + seq!['-']
        + h.subrange(16, 20) + seq!['-'] + h.subrange(20, 32)
}

/// Relies on `uuid::Uuid`: `from_u128` reads the value in big-endian order
/// and `Display` writes the canonical lowercase hyphenated hex form.
#[verifier::external_body]
pub(crate) fn format_uuid(x: u128) -> (r: String)
    ensures
        r@ == uuid_canonical(x),
{
    uuid::Uuid::from_u128(x).to_string()
}

} // verus!
