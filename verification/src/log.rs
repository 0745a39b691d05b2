//! Wall-clock timestamps for log lines: the clock reading comes from the
//! system through a trusted call, and the `HH:MM:SS` rendering of it is
//! verified digit by digit.

use vstd::prelude::*;

use chrono::Timelike;

verus! {

/// The decimal digit character for one digit value.
pub open spec fn spec_digit_char(d: int) -> char
    recommends
        0 <= d < 10,
{
    if d == 0 {
        '0'
    } else if d == 1 {
        '1'
    } else if d == 2 {
        '2'
    } else if d == 3 {
        '3'
    } else if d == 4 {
        '4'
    } else if d == 5 {
        '5'
    } else if d == 6 {
        '6'
    } else if d == 7 {
        '7'
    } else if d == 8 {
        '8'
    } else {
        '9'
    }
}

/// Two decimal digits, zero padded.
pub open spec fn spec_two_digits(n: int) -> Seq<char>
    recommends
        0 <= n < 100,
{
    seq![spec_digit_char(n / 10), spec_digit_char(n % 10)]
}

/// A clock reading rendered as `HH:MM:SS`.
pub open spec fn spec_hms(h: int, m: int, s: int) -> Seq<char>
    recommends
        0 <= h < 24,
        0 <= m < 60,
        0 <= s < 60,
{
    spec_two_digits(h) + seq![':'] + spec_two_digits(m) + seq![':'] + spec_two_digits(s)
}

/// Relies on `chrono::Local::now` and the `Timelike` accessors: `hour` is
/// 0 to 23, `minute` and `second` are 0 to 59, whatever instant the system
/// clock reports.
#[verifier::external_body]
fn local_time_hms() -> (r: (u32, u32, u32))
    ensures
        r.0 < 24,
        r.1 < 60,
        r.2 < 60,
{
    let now = chrono::Local::now();
    (now.hour(), now.minute(), now.second())
}

fn digit_str(d: u32) -> (r: &'static str)
    requires
        d < 10,
    ensures
        r@ =~= seq![spec_digit_char(d as int)],
{
    proof {
        reveal_strlit("0");
        reveal_strlit("1");
        reveal_strlit("2");
        reveal_strlit("3");
        reveal_strlit("4");
        reveal_strlit("5");
        reveal_strlit("6");
        reveal_strlit("7");
        reveal_strlit("8");
        reveal_strlit("9");
    }
    match d {
        0 => "0",
        1 => "1",
        2 => "2",
        3 => "3",
        4 => "4",
        5 => "5",
        6 => "6",
        7 => "7",
        8 => "8",
        _ => "9",
    }
}

/// Renders a value below one hundred as two digits, zero padded.
fn two_digits(n: u32) -> (r: String)
    requires
        n < 100,
    ensures
        r@ =~= spec_two_digits(n as int),
{
    let s = String::from_str(digit_str(n / 10));
    s.concat(digit_str(n % 10))
}

/// Renders a clock reading as `HH:MM:SS`, zero padded, colon separated.
pub fn format_hms(h: u32, m: u32, s: u32) -> (r: String)
    requires
        h < 24,
        m < 60,
        s < 60,
    ensures
        r@ =~= spec_hms(h as int, m as int, s as int),
{
    proof {
        reveal_strlit(":");
    }
    let mut out = two_digits(h);
    out.append(":");
    let mm = two_digits(m);
    out.append(mm.as_str());
    out.append(":");
    let ss = two_digits(s);
    out.append(ss.as_str());
    out
}

/// Reads the system clock and renders it as `HH:MM:SS`: always eight
/// characters, colons third and sixth, digits encoding an in-range reading.
pub fn get_system_time() -> (r: String)
    ensures
        exists|h: int, m: int, s: int|
            0 <= h < 24 && 0 <= m < 60 && 0 <= s < 60 && r@ == spec_hms(h, m, s),
        r@.len() == 8,
        r@[2] == ':',
        r@[5] == ':',
{
    let (h, m, s) = local_time_hms();
    let out = format_hms(h, m, s);
    proof {
        assert(out@ == spec_hms(h as int, m as int, s as int));
    }
    out
}

} // verus!
