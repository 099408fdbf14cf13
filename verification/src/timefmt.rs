//! A post's update timestamp, held as plain calendar fields, and its two
//! textual forms: the `YYYY-MM-DD` date used as the slug prefix and the
//! RFC 3339 date-time written into the metadata header.

use vstd::prelude::*;

verus! {

/// A calendar timestamp with a fixed offset from UTC, in plain fields.
#[derive(Debug, Clone, Copy, PartialEq, Eq, Structural)]
pub struct Timestamp {
    pub year: u32,
    pub month: u32,
    pub day: u32,
    pub hour: u32,
    pub minute: u32,
    pub second: u32,
    /// Minutes east of UTC; negative west of UTC.
    pub offset_minutes: i32,
}

impl Timestamp {
    /// The fields stay inside the ranges a four-digit-year calendar allows.
    pub open spec fn well_formed(self) -> bool {
        &&& self.year <= 9999
        &&& 1 <= self.month <= 12
        &&& 1 <= self.day <= 31
        &&& self.hour <= 23
        &&& self.minute <= 59
        &&& self.second <= 59
        &&& -(24 * 60) < self.offset_minutes < 24 * 60
    }
}

/// The decimal digit character for `d` (meaningful for `d < 10`).
pub open spec fn spec_digit(d: int) -> char {
    if d == 0 { '0' }
    else if d == 1 { '1' }
    else if d == 2 { '2' }
    else if d == 3 { '3' }
    else if d == 4 { '4' }
    else if d == 5 { '5' }
    else if d == 6 { '6' }
    else if d == 7 { '7' }
    else if d == 8 { '8' }
    else if d == 9 { '9' }
    else { '?' }
}

/// `n` zero-padded to two decimal digits (meaningful for `n < 100`).
pub open spec fn spec_two_digits(n: int) -> Seq<char> {
    seq![spec_digit(n / 10 % 10), spec_digit(n % 10)]
}

/// `n` zero-padded to four decimal digits (meaningful for `n < 10000`).
pub open spec fn spec_four_digits(n: int) -> Seq<char> {
    seq![
        spec_digit(n / 1000 % 10),
        spec_digit(n / 100 % 10),
        spec_digit(n / 10 % 10),
        spec_digit(n % 10),
    ]
}

/// The `YYYY-MM-DD` form of `ts`.
pub open spec fn spec_date(ts: Timestamp) -> Seq<char> {
    spec_four_digits(ts.year as int) + seq!['-'] + spec_two_digits(ts.month as int) + seq!['-']
        + spec_two_digits(ts.day as int)
}

/// The RFC 3339 form of `ts`: date, `T`, time, then the offset as
/// `+HH:MM` or `-HH:MM`.
pub open spec fn spec_rfc3339(ts: Timestamp) -> Seq<char> {
    spec_date(ts) + seq!['T'] + spec_two_digits(ts.hour as int) + seq![':']
        + spec_two_digits(ts.minute as int) + seq![':'] + spec_two_digits(ts.second as int)
        + spec_offset(ts.offset_minutes as int)
}

/// The `+HH:MM` / `-HH:MM` form of an offset given in minutes east of UTC.
pub open spec fn spec_offset(minutes: int) -> Seq<char> {
    let sign: Seq<char> = if minutes < 0 { seq!['-'] } else { seq!['+'] };
    let m = if minutes < 0 { -minutes } else { minutes };
    sign + spec_two_digits(m / 60) + seq![':'] + spec_two_digits(m % 60)
}

/// The one-character string for decimal digit `d`.
fn digit_str(d: u32) -> (r: &'static str)
    requires
        d < 10,
    ensures
        r@ == seq![spec_digit(d as int)],
{
    proof {
        reveal_strlit("0");
        reveal_strlit("1");
        reveal_strlit("2");
        reveal_strlit("3");
        reveal_strlit("4");
        reveal_strlit("5");
        reveal_strlit("6");
        reveal_strlit("7");
        reveal_strlit("8");
        reveal_strlit("9");
    }
    if d == 0 {
        "0"
    } else if d == 1 {
        "1"
    } else if d == 2 {
        "2"
    } else if d == 3 {
        "3"
    } else if d == 4 {
        "4"
    } else if d == 5 {
        "5"
    } else if d == 6 {
        "6"
    } else if d == 7 {
        "7"
    } else if d == 8 {
        "8"
    } else {
        "9"
    }
}

/// Appends `n` zero-padded to two digits onto `out`.
fn push_two_digits(out: &mut String, n: u32)
    requires
        n < 100,
    ensures
        final(out)@ == old(out)@ + spec_two_digits(n as int),
{
    out.append(digit_str(n / 10 % 10));
    out.append(digit_str(n % 10));
    proof {
        assert(final(out)@ =~= old(out)@ + spec_two_digits(n as int));
    }
}

/// Appends `n` zero-padded to four digits onto `out`.
fn push_four_digits(out: &mut String, n: u32)
    requires
        n < 10000,
    ensures
        final(out)@ == old(out)@ + spec_four_digits(n as int),
{
    out.append(digit_str(n / 1000 % 10));
    out.append(digit_str(n / 100 % 10));
    out.append(digit_str(n / 10 % 10));
    out.append(digit_str(n % 10));
    proof {
        assert(final(out)@ =~= old(out)@ + spec_four_digits(n as int));
    }
}

/// The `YYYY-MM-DD` date of `ts`, as the slug prefix uses it.
pub fn format_date(ts: &Timestamp) -> (r: String)
    requires
        ts.well_formed(),
    ensures
        r@ == spec_date(*ts),
{
    let mut out = String::new();
    push_four_digits(&mut out, ts.year);
    out.append("-");
    push_two_digits(&mut out, ts.month);
    out.append("-");
    push_two_digits(&mut out, ts.day);
    proof {
        reveal_strlit("-");
        assert(out@ =~= spec_date(*ts));
    }
    out
}

/// The RFC 3339 date-time of `ts`, as the metadata header records it.
pub fn format_rfc3339(ts: &Timestamp) -> (r: String)
    requires
        ts.well_formed(),
    ensures
        r@ == spec_rfc3339(*ts),
{
    let mut out = format_date(ts);
    out.append("T");
    push_two_digits(&mut out, ts.hour);
    out.append(":");
    push_two_digits(&mut out, ts.minute);
    out.append(":");
    push_two_digits(&mut out, ts.second);
    let minutes: u32 = if ts.offset_minutes < 0 {
        out.append("-");
        (-ts.offset_minutes) as u32
    } else {
        out.append("+");
        ts.offset_minutes as u32
    };
    push_two_digits(&mut out, minutes / 60);
    out.append(":");
    push_two_digits(&mut out, minutes % 60);
    proof {
        reveal_strlit("T");
        reveal_strlit(":");
        reveal_strlit("-");
        reveal_strlit("+");
        assert(out@ =~= spec_rfc3339(*ts));
    }
    out
}

} // verus!
