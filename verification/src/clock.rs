//! The local wall clock, and the texts made from it: the screenshot
//! timestamp (`%Y%m%d_%H%M%S`), the clock (`%H:%M`) and the lock
//! screen's date (`%A %d %B`).

use vstd::prelude::*;
use chrono::{Datelike, Timelike};
use crate::text::to_owned_string;
use crate::vm_config::time_since_epoch;
use crate::text::{dec, dec2, digit_value, is_digit, push_char, push_decimal, push_decimal2};

verus! {

/// A local date and time, field by field. `nanosecond` counts from the
/// start of the second; values from one billion on mark a leap second.
/// `weekday` counts days from Sunday.
#[derive(Clone, Copy, Debug)]
pub struct LocalDateTime {
    pub year: i32,
    pub month: u32,
    pub day: u32,
    pub hour: u32,
    pub minute: u32,
    pub second: u32,
    pub nanosecond: u32,
    pub weekday: u32,
}

/// The ranges chrono documents for the fields of a date and time.
pub open spec fn in_range(t: LocalDateTime) -> bool {
    &&& 1 <= t.month <= 12
    &&& 1 <= t.day <= 31
    &&& t.hour < 24
    &&& t.minute < 60
    &&& t.second < 60
    &&& t.nanosecond < 2_000_000_000
    &&& t.weekday < 7
}

/// `chrono::DateTime::from_timestamp(secs, nanos)` turned into local time
/// (`DateTime::with_timezone(&Local)`), read field by field
/// (`Datelike::year`, `month`, `day`, `Timelike::hour`, `minute`,
/// `second`, `nanosecond`, and `Weekday::num_days_from_sunday` of
/// `Datelike::weekday`); `None` when chrono refuses the timestamp (out of
/// its range, or an invalid nanosecond). The time zone comes from the
/// machine (chrono reads `TZ` or `/etc/localtime` and assumes it can pick
/// a local time type there); only the ranges that chrono's traits document
/// for each field are stated.
#[verifier::external_body]
fn local_from_timestamp(secs: i64, nanos: u32) -> (res: Option<LocalDateTime>)
    ensures
        res matches Some(t) ==> in_range(t),
{
    match chrono::DateTime::from_timestamp(secs, nanos) {
        Some(utc) => {
            let t = utc.with_timezone(&chrono::Local);
            Some(LocalDateTime {
                year: t.year(), month: t.month(), day: t.day(),
                hour: t.hour(), minute: t.minute(), second: t.second(),
                nanosecond: t.nanosecond(), weekday: t.weekday().num_days_from_sunday(),
            })
        },
        None => None,
    }
}

/// The current local date and time: `None` when the system clock reads
/// before the Unix epoch or beyond what chrono represents.
pub(crate) fn local_now() -> (res: Option<LocalDateTime>)
    ensures
        res matches Some(t) ==> in_range(t),
{
    match time_since_epoch() {
        Some((secs, nanos)) => {
            if secs <= 0x7fff_ffff_ffff_ffff {
                local_from_timestamp(secs as i64, nanos)
            } else {
                None
            }
        },
        None => None,
    }
}

/// `n` with zeros in front up to four digits.
pub open spec fn pad4(n: nat) -> Seq<char> {
    if n < 10 {
        "000"@ + dec(n)
    } else if n < 100 {
        "00"@ + dec(n)
    } else if n < 1000 {
        "0"@ + dec(n)
    } else {
        dec(n)
    }
}

/// chrono's `%Y`: four digits, zero-padded, for years 0 to 9999; a sign
/// and at least four digits otherwise.
pub open spec fn year_text(y: int) -> Seq<char> {
    if 0 <= y < 10000 {
        pad4(y as nat)
    } else if y < 0 {
        "-"@ + pad4((-y) as nat)
    } else {
        "+"@ + pad4(y as nat)
    }
}

/// The second as chrono's `%S` prints it: 60 during a leap second.
pub open spec fn shown_second(t: LocalDateTime) -> nat {
    (t.second + t.nanosecond / 1_000_000_000) as nat
}

/// `%Y%m%d_%H%M%S` of `t`.
pub open spec fn timestamp_text(t: LocalDateTime) -> Seq<char> {
    year_text(t.year as int) + dec2(t.month as nat) + dec2(t.day as nat) + "_"@ + dec2(t.hour as nat) + dec2(
        t.minute as nat,
    ) + dec2(shown_second(t))
}

/// `%H:%M` of `t`.
pub open spec fn clock_text(t: LocalDateTime) -> Seq<char> {
    dec2(t.hour as nat) + ":"@ + dec2(t.minute as nat)
}

/// The two digits of a number under 100.
proof fn lemma_dec2_digits(n: nat)
    requires
        n < 100,
    ensures
        dec2(n).len() == 2,
        is_digit(dec2(n)[0]) && is_digit(dec2(n)[1]),
        digit_value(dec2(n)[0]) * 10 + digit_value(dec2(n)[1]) == n,
{
    if n >= 10 {
        let q = n / 10;
        assert(dec(q) =~= seq![crate::text::digit_char(q)]);
        assert(dec(n) == dec(q).push(crate::text::digit_char((n % 10) as nat)));
    }
}

/// The clock reads `HH:MM`: five characters, a colon in the middle, and
/// two digits on each side whose values are the hour and the minute.
pub proof fn lemma_clock_reads_back(t: LocalDateTime)
    requires
        in_range(t),
    ensures
        ({
            let s = clock_text(t);
            &&& s.len() == 5
            &&& s[2] == ':'
            &&& is_digit(s[0]) && is_digit(s[1]) && is_digit(s[3]) && is_digit(s[4])
            &&& digit_value(s[0]) * 10 + digit_value(s[1]) == t.hour
            &&& digit_value(s[3]) * 10 + digit_value(s[4]) == t.minute
        }),
{
    reveal_strlit(":");
    lemma_dec2_digits(t.hour as nat);
    lemma_dec2_digits(t.minute as nat);
    let h = dec2(t.hour as nat);
    let m = dec2(t.minute as nat);
    let s = clock_text(t);
    assert(s =~= h + ":"@ + m);
    assert(s[0] == h[0] && s[1] == h[1] && s[3] == m[0] && s[4] == m[1]);
}

/// chrono's English weekday names, from Sunday.
pub open spec fn weekday_name(w: u32) -> Seq<char> {
    if w == 0 {
        "Sunday"@
    } else if w == 1 {
        "Monday"@
    } else if w == 2 {
        "Tuesday"@
    } else if w == 3 {
        "Wednesday"@
    } else if w == 4 {
        "Thursday"@
    } else if w == 5 {
        "Friday"@
    } else {
        "Saturday"@
    }
}

/// chrono's English month names, from January (month 1).
pub open spec fn month_name(m: u32) -> Seq<char> {
    if m == 1 {
        "January"@
    } else if m == 2 {
        "February"@
    } else if m == 3 {
        "March"@
    } else if m == 4 {
        "April"@
    } else if m == 5 {
        "May"@
    } else if m == 6 {
        "June"@
    } else if m == 7 {
        "July"@
    } else if m == 8 {
        "August"@
    } else if m == 9 {
        "September"@
    } else if m == 10 {
        "October"@
    } else if m == 11 {
        "November"@
    } else {
        "December"@
    }
}

/// `%A %d %B` of `t`: weekday name, two-digit day, month name.
pub open spec fn date_text(t: LocalDateTime) -> Seq<char> {
    weekday_name(t.weekday) + " "@ + dec2(t.day as nat) + " "@ + month_name(t.month)
}

fn weekday_str(w: u32) -> (res: &'static str)
    ensures
        res@ == weekday_name(w),
{
    if w == 0 {
        "Sunday"
    } else if w == 1 {
        "Monday"
    } else if w == 2 {
        "Tuesday"
    } else if w == 3 {
        "Wednesday"
    } else if w == 4 {
        "Thursday"
    } else if w == 5 {
        "Friday"
    } else {
        "Saturday"
    }
}

fn month_str(m: u32) -> (res: &'static str)
    ensures
        res@ == month_name(m),
{
    if m == 1 {
        "January"
    } else if m == 2 {
        "February"
    } else if m == 3 {
        "March"
    } else if m == 4 {
        "April"
    } else if m == 5 {
        "May"
    } else if m == 6 {
        "June"
    } else if m == 7 {
        "July"
    } else if m == 8 {
        "August"
    } else if m == 9 {
        "September"
    } else if m == 10 {
        "October"
    } else if m == 11 {
        "November"
    } else {
        "December"
    }
}

/// `t` formatted as `%A %d %B`.
pub fn format_date(t: &LocalDateTime) -> (res: String)
    ensures
        res@ == date_text(*t),
{
    let mut out = to_owned_string(weekday_str(t.weekday));
    out.append(" ");
    push_decimal2(&mut out, t.day as u64);
    out.append(" ");
    out.append(month_str(t.month));
    out
}

/// Appends `n` zero-padded to four digits.
fn push_pad4(out: &mut String, n: u64)
    ensures
        final(out)@ == old(out)@ + pad4(n as nat),
{
    proof {
        reveal_strlit("000");
        reveal_strlit("00");
        reveal_strlit("0");
    }
    if n < 10 {
        out.append("000");
    } else if n < 100 {
        out.append("00");
    } else if n < 1000 {
        out.append("0");
    }
    let ghost mid = out@;
    push_decimal(out, n);
    proof {
        assert(out@ == mid + dec(n as nat));
    }
}

/// `t` formatted as `%Y%m%d_%H%M%S`.
pub fn format_timestamp(t: &LocalDateTime) -> (res: String)
    requires
        t.nanosecond < 2_000_000_000,
        t.second < 60,
    ensures
        res@ == timestamp_text(*t),
{
    let mut out = String::new();
    let y = t.year;
    if 0 <= y && y < 10000 {
        push_pad4(&mut out, y as u64);
    } else if y < 0 {
        out.append("-");
        let a: i64 = -(y as i64);
        push_pad4(&mut out, a as u64);
    } else {
        out.append("+");
        push_pad4(&mut out, y as u64);
    }
    push_decimal2(&mut out, t.month as u64);
    push_decimal2(&mut out, t.day as u64);
    out.append("_");
    push_decimal2(&mut out, t.hour as u64);
    push_decimal2(&mut out, t.minute as u64);
    let s: u32 = t.second + t.nanosecond / 1_000_000_000;
    push_decimal2(&mut out, s as u64);
    out
}

/// `t` formatted as `%H:%M`.
pub fn format_clock(t: &LocalDateTime) -> (res: String)
    ensures
        res@ == clock_text(*t),
{
    let mut out = String::new();
    push_decimal2(&mut out, t.hour as u64);
    push_char(&mut out, ':');
    push_decimal2(&mut out, t.minute as u64);
    proof {
        reveal_strlit(":");
    }
    out
}

/// The current local time as `%Y%m%d_%H%M%S`; `None` when the clock
/// cannot be read as a local time (see `local_now`).
pub fn timestamp() -> (res: Option<String>)
    ensures
        res matches Some(s) ==> exists|t: LocalDateTime| in_range(t) && s@ == timestamp_text(t),
{
    match local_now() {
        Some(t) => Some(format_timestamp(&t)),
        None => None,
    }
}

/// The current local date as `%A %d %B`; `None` when the clock cannot be
/// read as a local time.
pub fn date_label() -> (res: Option<String>)
    ensures
        res matches Some(s) ==> exists|t: LocalDateTime| in_range(t) && s@ == date_text(t),
{
    match local_now() {
        Some(t) => Some(format_date(&t)),
        None => None,
    }
}

/// The current local time as `%H:%M`; `None` when the clock cannot be
/// read as a local time.
pub fn clock_label() -> (res: Option<String>)
    ensures
        res matches Some(s) ==> exists|t: LocalDateTime| in_range(t) && s@ == clock_text(t),
{
    match local_now() {
        Some(t) => Some(format_clock(&t)),
        None => None,
    }
}

} // verus!
