//! The date of a run and how it is written into the context.

use vstd::prelude::*;
use vstd::string::StringExecFns;
use chrono::Datelike;
use std::time::{Duration, SystemTime, UNIX_EPOCH};
use crate::text::owned;

verus! {

/// The character of the decimal digit `d`.
pub open spec fn digit_char(d: nat) -> char {
    if d == 0 {
        '0'
    } else if d == 1 {
        '1'
    } else if d == 2 {
        '2'
    } else if d == 3 {
        '3'
    } else if d == 4 {
        '4'
    } else if d == 5 {
        '5'
    } else if d == 6 {
        '6'
    } else if d == 7 {
        '7'
    } else if d == 8 {
        '8'
    } else {
        '9'
    }
}

/// The decimal digits of `n`, without leading zeros.
pub open spec fn digits(n: nat) -> Seq<char>
    decreases n,
{
    if n < 10 {
        seq![digit_char(n)]
    } else {
        digits(n / 10).push(digit_char(n % 10))
    }
}

/// The decimal form of `i`, with a minus sign where it is negative.
pub open spec fn decimal(i: int) -> Seq<char> {
    if i < 0 {
        seq!['-'] + digits((-i) as nat)
    } else {
        digits(i as nat)
    }
}

/// The date as the context holds it: month, day and year, the month and the
/// day counted from zero, with `-` between them.
pub open spec fn date_text(month0: nat, day0: nat, year: int) -> Seq<char> {
    digits(month0) + seq!['-'] + digits(day0) + seq!['-'] + decimal(year)
}

/// The text of one decimal digit.
fn digit_text(d: u64) -> (text: &'static str)
    requires
        d < 10,
    ensures
        text@ == seq![digit_char(d as nat)],
{
    proof {
        reveal_strlit("0");
        reveal_strlit("1");
        reveal_strlit("2");
        reveal_strlit("3");
        reveal_strlit("4");
        reveal_strlit("5");
        reveal_strlit("6");
        reveal_strlit("7");
        reveal_strlit("8");
        reveal_strlit("9");
    }
    let text = if d == 0 {
        "0"
    } else if d == 1 {
        "1"
    } else if d == 2 {
        "2"
    } else if d == 3 {
        "3"
    } else if d == 4 {
        "4"
    } else if d == 5 {
        "5"
    } else if d == 6 {
        "6"
    } else if d == 7 {
        "7"
    } else if d == 8 {
        "8"
    } else {
        "9"
    };
    assert(text@ =~= seq![digit_char(d as nat)]);
    text
}

/// Writes a natural number in decimal.
pub fn natural_text(n: u64) -> (text: String)
    ensures
        text@ == digits(n as nat),
    decreases n,
{
    if n < 10 {
        owned(digit_text(n))
    } else {
        let mut text = natural_text(n / 10);
        text.append(digit_text(n % 10));
        text
    }
}

/// Writes an integer in decimal.
pub fn integer_text(i: i32) -> (text: String)
    ensures
        text@ == decimal(i as int),
{
    if i < 0 {
        let magnitude: u64 = (0 - (i as i64)) as u64;
        let mut text = owned("-");
        proof {
            reveal_strlit("-");
            assert("-"@ =~= seq!['-']);
        }
        let rest = natural_text(magnitude);
        text.append(rest.as_str());
        text
    } else {
        natural_text(i as u64)
    }
}

/// Writes a date as the context holds it.
pub fn format_date(month0: u32, day0: u32, year: i32) -> (text: String)
    ensures
        text@ == date_text(month0 as nat, day0 as nat, year as int),
{
    proof {
        reveal_strlit("-");
        assert("-"@ =~= seq!['-']);
    }
    let mut text = natural_text(month0 as u64);
    text.append("-");
    let day = natural_text(day0 as u64);
    text.append(day.as_str());
    text.append("-");
    let year_text = integer_text(year);
    text.append(year_text.as_str());
    text
}

/// A calendar date: the year, and the month and the day of the month counted
/// from zero.
#[derive(Clone, Copy, Debug, PartialEq, Eq, Structural)]
pub struct Date {
    pub year: i32,
    pub month0: u32,
    pub day0: u32,
}

impl Date {
    /// Whether the month and the day lie in a calendar's range.
    pub open spec fn in_range(self) -> bool {
        self.month0 < 12 && self.day0 < 31
    }
}

/// The calendar date, in UTC, of the moment that lies `seconds` after the
/// start of 1970; `None` where the calendar does not reach that far.
pub uninterp spec fn calendar_date(seconds: int) -> Option<Date>;

/// `DateTime::from_timestamp` of chrono with `year`, `month0` and `day0` of
/// `Datelike`: the date of a moment, which depends on the moment alone. The
/// month is below 12 and the day below 31.
#[verifier::external_body]
fn date_of(seconds: i64) -> (date: Option<Date>)
    ensures
        date == calendar_date(seconds as int),
        date matches Some(d) ==> d.in_range(),
{
    chrono::DateTime::from_timestamp(seconds, 0).map(
        |moment| Date { year: moment.year(), month0: moment.month0(), day0: moment.day0() },
    )
}

#[verifier::external_type_specification]
#[verifier::external_body]
pub struct ExSystemTime(std::time::SystemTime);

/// `SystemTime::now`: the moment that the clock shows, which depends on the
/// clock.
#[verifier::external_body]
fn clock_now() -> (now: SystemTime)
{
    SystemTime::now()
}

/// `SystemTime::duration_since` the start of 1970: the time that has passed
/// since then; `None` where the moment lies before it.
#[verifier::external_body]
fn since_epoch(moment: &SystemTime) -> (elapsed: Option<Duration>)
{
    moment.duration_since(UNIX_EPOCH).ok()
}

/// `Duration::as_secs`: the whole seconds of a span of time.
#[verifier::external_body]
fn whole_seconds(elapsed: &Duration) -> (seconds: u64)
{
    elapsed.as_secs()
}

/// The moment that the clock shows, in whole seconds since the start of
/// 1970; `None` where the clock stands before it.
fn seconds_now() -> (seconds: Option<u64>)
{
    let now = clock_now();
    match since_epoch(&now) {
        Some(elapsed) => Some(whole_seconds(&elapsed)),
        None => None,
    }
}

/// The date of a moment given in seconds since the start of 1970, if the
/// moment has one.
pub open spec fn date_at(moment: Option<u64>) -> Option<Date> {
    match moment {
        Some(seconds) => if seconds <= i64::MAX {
            calendar_date(seconds as int)
        } else {
            None
        },
        None => None,
    }
}

/// The calendar date, in UTC, of a moment given in seconds since the start
/// of 1970. There is none for no moment, and none for a moment that the
/// calendar does not reach.
pub fn date_on(moment: Option<u64>) -> (date: Option<Date>)
    ensures
        date == date_at(moment),
        date matches Some(d) ==> d.in_range(),
{
    match moment {
        Some(seconds) => if seconds <= 0x7fff_ffff_ffff_ffff {
            date_of(seconds as i64)
        } else {
            None
        },
        None => None,
    }
}

/// The current date in UTC, of the moment that the clock gives, if it has one.
pub fn today() -> (date: Option<Date>)
    ensures
        exists|moment: Option<u64>| date == #[trigger] date_at(moment),
        date matches Some(d) ==> d.in_range(),
{
    let moment = seconds_now();
    let date = date_on(moment);
    assert(date == date_at(moment));
    date
}

} // verus!
