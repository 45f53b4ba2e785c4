//! The UTC timestamp of a default commit message.

use vstd::prelude::*;
use chrono::{Datelike, Timelike};
use crate::text::{decimal, digit_char, push_decimal, push_str};

verus! {

/// A calendar date and time of day in UTC.
#[derive(Debug, Clone, Copy, PartialEq, Eq, Structural)]
pub struct UtcTime {
    /// The proleptic Gregorian year.
    pub year: i32,
    /// The month, from 1 to 12.
    pub month: u32,
    /// The day of the month, from 1 to 31.
    pub day: u32,
    /// The hour, from 0 to 23.
    pub hour: u32,
    /// The minute, from 0 to 59.
    pub minute: u32,
    /// The second, from 0 to 59.
    pub second: u32,
}

impl UtcTime {
    /// Every field lies in its range.
    pub open spec fn valid(self) -> bool {
        &&& 1 <= self.month <= 12
        &&& 1 <= self.day <= 31
        &&& self.hour <= 23
        &&& self.minute <= 59
        &&& self.second <= 59
    }
}

/// The date and time, in UTC, that `chrono::DateTime::from_timestamp` gives
/// for `secs` seconds and `nanos` nanoseconds after the Unix epoch, or `None`
/// where it gives none (a time outside the range it can represent).
pub uninterp spec fn utc_calendar(secs: i64, nanos: u32) -> Option<UtcTime>;

/// The time elapsed since the Unix epoch by the system clock, as whole
/// seconds and the nanoseconds past them, through
/// `std::time::SystemTime::elapsed` on `UNIX_EPOCH`; `None` when the clock
/// stands before the epoch. The clock decides the value, so only the range
/// of the nanoseconds, which `Duration::subsec_nanos` documents, is stated.
#[verifier::external_body]
fn seconds_since_epoch() -> (r: Option<(u64, u32)>)
    ensures
        r matches Some(p) ==> p.1 < 1_000_000_000,
{
    match std::time::UNIX_EPOCH.elapsed() {
        Ok(d) => Some((d.as_secs(), d.subsec_nanos())),
        Err(_) => None,
    }
}

/// `chrono::DateTime::from_timestamp(secs, nanos)` read back through the
/// `Datelike` and `Timelike` getters. The result is named `utc_calendar`;
/// beside that, the ranges that those getters document are stated: month
/// 1 to 12, day 1 to 31, hour 0 to 23, minute 0 to 59, second 0 to 59.
#[verifier::external_body]
fn calendar_of(secs: i64, nanos: u32) -> (r: Option<UtcTime>)
    ensures
        r == utc_calendar(secs, nanos),
        r matches Some(t) ==> t.valid(),
{
    match chrono::DateTime::from_timestamp(secs, nanos) {
        Some(t) => Some(
            UtcTime {
                year: t.year(),
                month: t.month(),
                day: t.day(),
                hour: t.hour(),
                minute: t.minute(),
                second: t.second(),
            },
        ),
        None => None,
    }
}

/// The UTC date and time `secs` seconds and `nanos` nanoseconds after the
/// Unix epoch; `None` for a time that has no date in the calendar's range.
pub fn utc_time_at(secs: u64, nanos: u32) -> (r: Option<UtcTime>)
    ensures
        secs <= i64::MAX ==> r == utc_calendar(secs as i64, nanos),
        secs > i64::MAX ==> r is None,
        r matches Some(t) ==> t.valid(),
{
    if secs > i64::MAX as u64 {
        return None;
    }
    calendar_of(secs as i64, nanos)
}

/// Whether `t` is the calendar reading of some time at or after the Unix
/// epoch: what the clock gives is always such a reading.
pub open spec fn is_clock_reading(t: UtcTime) -> bool {
    exists|secs: i64, nanos: u32|
        0 <= secs && nanos < 1_000_000_000 && #[trigger] utc_calendar(secs, nanos) == Some(t)
}

/// The current UTC date and time by the system clock; `None` when the clock
/// stands before the Unix epoch or beyond the calendar's range. When there
/// is one, it is the calendar reading of the seconds the clock gave.
pub fn utc_now() -> (r: Option<UtcTime>)
    ensures
        r matches Some(t) ==> t.valid() && is_clock_reading(t),
{
    match seconds_since_epoch() {
        Some((secs, nanos)) => {
            let r = utc_time_at(secs, nanos);
            proof {
                if let Some(t) = r {
                    assert(utc_calendar(secs as i64, nanos) == Some(t));
                }
            }
            r
        },
        None => None,
    }
}

/// `n` as two decimal digits, with a leading zero below ten.
pub open spec fn two_digits(n: nat) -> Seq<char> {
    seq![digit_char((n / 10) % 10), digit_char(n % 10)]
}

/// `n` as at least four decimal digits, zero-padded on the left.
pub open spec fn four_digits(n: nat) -> Seq<char> {
    if n < 10 {
        "000"@ + decimal(n)
    } else if n < 100 {
        "00"@ + decimal(n)
    } else if n < 1000 {
        "0"@ + decimal(n)
    } else {
        decimal(n)
    }
}

/// The year as `%Y` writes it: four digits, zero-padded, for years 0 to
/// 9999, and with an explicit sign otherwise.
pub open spec fn year_text(year: int) -> Seq<char> {
    if 0 <= year <= 9999 {
        four_digits(year as nat)
    } else if year > 9999 {
        seq!['+'] + decimal(year as nat)
    } else {
        seq!['-'] + four_digits((-year) as nat)
    }
}

/// The time `t` laid out as `%Y-%m-%d %H:%M:%S UTC`.
pub open spec fn stamp_text(t: UtcTime) -> Seq<char> {
    year_text(t.year as int) + seq!['-'] + two_digits(t.month as nat) + seq!['-'] + two_digits(
        t.day as nat,
    ) + seq![' '] + two_digits(t.hour as nat) + seq![':'] + two_digits(t.minute as nat) + seq![
        ':',
    ] + two_digits(t.second as nat) + " UTC"@
}

/// The value of a decimal digit character.
pub open spec fn digit_value(c: char) -> int {
    c as int - '0' as int
}

proof fn lemma_digit_value(d: nat)
    requires
        d < 10,
    ensures
        digit_value(digit_char(d)) == d,
{
}

proof fn lemma_four_digits(n: nat)
    requires
        n <= 9999,
    ensures
        four_digits(n).len() == 4,
        digit_value(four_digits(n)[0]) * 1000 + digit_value(four_digits(n)[1]) * 100
            + digit_value(four_digits(n)[2]) * 10 + digit_value(four_digits(n)[3]) == n,
{
    reveal_with_fuel(decimal, 4);
    reveal_strlit("000");
    reveal_strlit("00");
    reveal_strlit("0");
    lemma_digit_value(n % 10);
    lemma_digit_value((n / 10) % 10);
    lemma_digit_value((n / 100) % 10);
    lemma_digit_value(n / 1000);
    if n < 10 {
        lemma_digit_value(n);
        assert(four_digits(n) =~= seq!['0', '0', '0', digit_char(n)]);
    } else if n < 100 {
        lemma_digit_value(n / 10);
        assert(four_digits(n) =~= seq!['0', '0', digit_char(n / 10), digit_char(n % 10)]);
    } else if n < 1000 {
        lemma_digit_value(n / 100);
        assert(decimal(n / 10) =~= seq![digit_char(n / 100), digit_char((n / 10) % 10)]);
        assert(four_digits(n) =~= seq![
            '0',
            digit_char(n / 100),
            digit_char((n / 10) % 10),
            digit_char(n % 10),
        ]);
    } else {
        assert(decimal(n / 100) =~= seq![digit_char(n / 1000), digit_char((n / 100) % 10)]);
        assert(decimal(n / 10) =~= seq![
            digit_char(n / 1000),
            digit_char((n / 100) % 10),
            digit_char((n / 10) % 10),
        ]);
        assert(four_digits(n) =~= seq![
            digit_char(n / 1000),
            digit_char((n / 100) % 10),
            digit_char((n / 10) % 10),
            digit_char(n % 10),
        ]);
    }
}

/// A stamp for a year from 0 to 9999 is 23 characters long and reads, at
/// fixed places, the year, month, day, hour, minute and second of `t`,
/// separated by `-`, `-`, a space, `:` and `:`, and ends in ` UTC`.
pub proof fn law_stamp_reads_back_its_time(t: UtcTime)
    requires
        t.valid(),
        0 <= t.year <= 9999,
    ensures
        ({
            let s = stamp_text(t);
            &&& s.len() == 23
            &&& digit_value(s[0]) * 1000 + digit_value(s[1]) * 100 + digit_value(s[2]) * 10
                + digit_value(s[3]) == t.year
            &&& s[4] == '-'
            &&& digit_value(s[5]) * 10 + digit_value(s[6]) == t.month
            &&& s[7] == '-'
            &&& digit_value(s[8]) * 10 + digit_value(s[9]) == t.day
            &&& s[10] == ' '
            &&& digit_value(s[11]) * 10 + digit_value(s[12]) == t.hour
            &&& s[13] == ':'
            &&& digit_value(s[14]) * 10 + digit_value(s[15]) == t.minute
            &&& s[16] == ':'
            &&& digit_value(s[17]) * 10 + digit_value(s[18]) == t.second
            &&& s.subrange(19, 23) == " UTC"@
        }),
{
    lemma_four_digits(t.year as nat);
    let y = four_digits(t.year as nat);
    reveal_strlit(" UTC");
    let s = stamp_text(t);
    lemma_digit_value((t.month / 10) as nat);
    lemma_digit_value((t.month % 10) as nat);
    lemma_digit_value((t.day / 10) as nat);
    lemma_digit_value((t.day % 10) as nat);
    lemma_digit_value((t.hour / 10) as nat);
    lemma_digit_value((t.hour % 10) as nat);
    lemma_digit_value((t.minute / 10) as nat);
    lemma_digit_value((t.minute % 10) as nat);
    lemma_digit_value((t.second / 10) as nat);
    lemma_digit_value((t.second % 10) as nat);
    assert(s =~= y + seq!['-'] + two_digits(t.month as nat) + seq!['-'] + two_digits(
        t.day as nat,
    ) + seq![' '] + two_digits(t.hour as nat) + seq![':'] + two_digits(t.minute as nat) + seq![
        ':',
    ] + two_digits(t.second as nat) + " UTC"@);
    assert(s.subrange(19, 23) =~= " UTC"@);
}

fn digit_of(d: u32) -> (c: char)
    requires
        d < 10,
    ensures
        c == digit_char(d as nat),
{
    if d == 0 {
        '0'
    } else if d == 1 {
        '1'
    } else if d == 2 {
        '2'
    } else if d == 3 {
        '3'
    } else if d == 4 {
        '4'
    } else if d == 5 {
        '5'
    } else if d == 6 {
        '6'
    } else if d == 7 {
        '7'
    } else if d == 8 {
        '8'
    } else {
        '9'
    }
}

fn push_two_digits(out: &mut String, n: u32)
    ensures
        final(out)@ == old(out)@ + two_digits(n as nat),
{
    out.push(digit_of((n / 10) % 10));
    out.push(digit_of(n % 10));
    assert(final(out)@ =~= old(out)@ + two_digits(n as nat));
}

fn push_four_digits(out: &mut String, n: u64)
    ensures
        final(out)@ == old(out)@ + four_digits(n as nat),
{
    let ghost start = out@;
    if n < 10 {
        push_str(out, "000");
    } else if n < 100 {
        push_str(out, "00");
    } else if n < 1000 {
        push_str(out, "0");
    }
    push_decimal(out, n);
    proof {
        if n < 10 {
            assert(out@ =~= start + ("000"@ + decimal(n as nat)));
        } else if n < 100 {
            assert(out@ =~= start + ("00"@ + decimal(n as nat)));
        } else if n < 1000 {
            assert(out@ =~= start + ("0"@ + decimal(n as nat)));
        }
    }
}

fn push_year(out: &mut String, year: i32)
    ensures
        final(out)@ == old(out)@ + year_text(year as int),
{
    let ghost start = out@;
    if 0 <= year && year <= 9999 {
        push_four_digits(out, year as u64);
    } else if year > 9999 {
        out.push('+');
        push_decimal(out, year as u64);
        assert(out@ =~= start + (seq!['+'] + decimal(year as nat)));
    } else {
        out.push('-');
        let magnitude: u64 = (-(year as i64)) as u64;
        push_four_digits(out, magnitude);
        assert(out@ =~= start + (seq!['-'] + four_digits(magnitude as nat)));
    }
}

/// The time `t` laid out as `%Y-%m-%d %H:%M:%S UTC`.
pub fn format_stamp(t: &UtcTime) -> (s: String)
    ensures
        s@ == stamp_text(*t),
{
    let mut s = String::new();
    push_year(&mut s, t.year);
    s.push('-');
    push_two_digits(&mut s, t.month);
    s.push('-');
    push_two_digits(&mut s, t.day);
    s.push(' ');
    push_two_digits(&mut s, t.hour);
    s.push(':');
    push_two_digits(&mut s, t.minute);
    s.push(':');
    push_two_digits(&mut s, t.second);
    push_str(&mut s, " UTC");
    assert(s@ =~= stamp_text(*t));
    s
}

} // verus!
