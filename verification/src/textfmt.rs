//! Small verified text-rendering helpers: appending characters, decimal and
//! hexadecimal rendering of integers, and the percent / uptime formats used
//! by the snapshot records.

use vstd::prelude::*;

verus! {

/// Relies on `String::push` from std: appends exactly one character
/// at the end of the string.
#[verifier::external_body]
pub(crate) fn push_char(s: &mut String, c: char)
    ensures
        final(s)@ == old(s)@.push(c),
{
    s.push(c);
}

/// The decimal digit character for `d` (meaningful for `0 <= d < 10`).
pub open spec fn dec_digit(d: int) -> char {
    ((48 + d) as u8) as char
}

/// The upper-case hexadecimal digit character for `d` (meaningful for `0 <= d < 16`).
pub open spec fn hex_digit(d: int) -> char {
    if d < 10 {
        ((48 + d) as u8) as char
    } else {
        ((55 + d) as u8) as char
    }
}

/// Decimal rendering of `n`, most significant digit first, no leading zeros.
pub open spec fn spec_decimal(n: int) -> Seq<char>
    decreases n,
{
    if n < 10 {
        seq![dec_digit(n)]
    } else {
        spec_decimal(n / 10).push(dec_digit(n % 10))
    }
}

/// Upper-case hexadecimal rendering of `n`, no leading zeros.
pub open spec fn spec_hex_upper(n: int) -> Seq<char>
    decreases n,
{
    if n < 16 {
        seq![hex_digit(n)]
    } else {
        spec_hex_upper(n / 16).push(hex_digit(n % 16))
    }
}

fn dec_digit_char(d: u8) -> (c: char)
    requires
        d < 10,
    ensures
        c == dec_digit(d as int),
{
    (48 + d) as char
}

fn hex_digit_char(d: u8) -> (c: char)
    requires
        d < 16,
    ensures
        c == hex_digit(d as int),
{
    if d < 10 {
        (48 + d) as char
    } else {
        (55 + d) as char
    }
}

/// Renders `n` in decimal.
pub fn u64_to_string(n: u64) -> (r: String)
    ensures
        r@ == spec_decimal(n as int),
    decreases n,
{
    if n < 10 {
        let mut s = String::new();
        let c = dec_digit_char(n as u8);
        push_char(&mut s, c);
        s
    } else {
        let mut s = u64_to_string(n / 10);
        let c = dec_digit_char((n % 10) as u8);
        push_char(&mut s, c);
        s
    }
}

/// Renders `n` in upper-case hexadecimal, as a hexadecimal literal would be
/// written without its prefix.
pub fn u64_to_hex_upper(n: u64) -> (r: String)
    ensures
        r@ == spec_hex_upper(n as int),
    decreases n,
{
    if n < 16 {
        let mut s = String::new();
        let c = hex_digit_char(n as u8);
        push_char(&mut s, c);
        s
    } else {
        let mut s = u64_to_hex_upper(n / 16);
        let c = hex_digit_char((n % 16) as u8);
        push_char(&mut s, c);
        s
    }
}

/// A percentage given in tenths of a percent, rendered with one decimal
/// place and a trailing percent sign.
pub open spec fn spec_percent_tenths(t: int) -> Seq<char> {
    spec_decimal(t / 10).push('.').push(dec_digit(t % 10)).push('%')
}

/// Renders a percentage given in tenths of a percent (e.g. `523` renders as
/// `52.3%`).
pub fn format_percent_tenths(t: u64) -> (r: String)
    ensures
        r@ == spec_percent_tenths(t as int),
{
    let mut s = u64_to_string(t / 10);
    push_char(&mut s, '.');
    let c = dec_digit_char((t % 10) as u8);
    push_char(&mut s, c);
    push_char(&mut s, '%');
    s
}

/// An uptime of `h` whole hours and `m` leftover minutes, rendered as
/// hours and minutes.
pub open spec fn spec_uptime_text(h: int, m: int) -> Seq<char> {
    spec_decimal(h).push('h').push(' ') + spec_decimal(m).push('m')
}

/// Renders an uptime already split into whole hours and leftover minutes.
pub fn format_uptime(h: u64, m: u64) -> (r: String)
    ensures
        r@ == spec_uptime_text(h as int, m as int),
{
    let mut s = u64_to_string(h);
    push_char(&mut s, 'h');
    push_char(&mut s, ' ');
    let rest = u64_to_string(m);
    let out = s.concat(rest.as_str());
    let mut out = out;
    push_char(&mut out, 'm');
    out
}

} // verus!
