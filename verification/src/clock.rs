//! Wall-clock time as the observability layer reads it: a civil date and time
//! to print, and an instant to measure from.

use jiff::fmt::friendly::SpanPrinter;
use jiff::SignedDuration;
use vstd::prelude::*;
use vstd::string::*;

use crate::text::{four_digits, push_four_digits, push_two_digits, two_digits};

verus! {

/// The largest distance from the Unix epoch, in nanoseconds, that a `Stamp`
/// holds. It lies beyond the years -9999 and 9999.
pub const NANOS_LIMIT: i128 = 1_000_000_000_000_000_000_000;

/// Whether each field is in the range of its kind: the year between -9999 and
/// 9999, the month, day, hour, minute and second as a calendar and a clock
/// count them, the instant within `NANOS_LIMIT` of the epoch.
pub open spec fn stamp_fields_valid(
    year: int,
    month: int,
    day: int,
    hour: int,
    minute: int,
    second: int,
    nanos: int,
) -> bool {
    &&& -9999 <= year <= 9999
    &&& 1 <= month <= 12
    &&& 1 <= day <= 31
    &&& 0 <= hour <= 23
    &&& 0 <= minute <= 59
    &&& 0 <= second <= 59
    &&& -NANOS_LIMIT <= nanos <= NANOS_LIMIT
}

/// A moment: what the wall clock showed, and the nanoseconds since the Unix
/// epoch.
#[derive(Clone, Copy, Debug)]
pub struct Stamp {
    year: i16,
    month: u8,
    day: u8,
    hour: u8,
    minute: u8,
    second: u8,
    nanos: i128,
}

/// `YYYY-MM-DD HH:MM:SS`, the year with a minus sign in front where it is
/// negative.
pub open spec fn timestamp_text(
    year: int,
    month: int,
    day: int,
    hour: int,
    minute: int,
    second: int,
) -> Seq<char> {
    (if year < 0 {
        seq!['-'] + four_digits(-year)
    } else {
        four_digits(year)
    }) + seq!['-'] + two_digits(month) + seq!['-'] + two_digits(day) + seq![' '] + two_digits(hour)
        + seq![':'] + two_digits(minute) + seq![':'] + two_digits(second)
}

/// `nanos` in milliseconds, rounded to the nearest one, a half away from zero.
pub open spec fn rounded_millis(nanos: int) -> int {
    if nanos >= 0 {
        (nanos + 500_000) / 1_000_000
    } else {
        -((-nanos + 500_000) / 1_000_000)
    }
}

impl Stamp {
    #[verifier::type_invariant]
    spec fn well_formed(self) -> bool {
        stamp_fields_valid(
            self.year as int,
            self.month as int,
            self.day as int,
            self.hour as int,
            self.minute as int,
            self.second as int,
            self.nanos as int,
        )
    }

    /// Nanoseconds since the Unix epoch.
    pub closed spec fn instant(self) -> int {
        self.nanos as int
    }

    /// What the wall clock showed, as it is printed.
    pub closed spec fn text(self) -> Seq<char> {
        timestamp_text(
            self.year as int,
            self.month as int,
            self.day as int,
            self.hour as int,
            self.minute as int,
            self.second as int,
        )
    }

    /// The moment with these fields, where each is in its range.
    pub fn new(year: i16, month: u8, day: u8, hour: u8, minute: u8, second: u8, nanos: i128) -> (stamp:
        Option<Stamp>)
        ensures
            stamp is Some <==> stamp_fields_valid(
                year as int,
                month as int,
                day as int,
                hour as int,
                minute as int,
                second as int,
                nanos as int,
            ),
            stamp matches Some(s) ==> {
                &&& s.instant() == nanos
                &&& s.text() == timestamp_text(
                    year as int,
                    month as int,
                    day as int,
                    hour as int,
                    minute as int,
                    second as int,
                )
            },
    {
        if -9999 <= year && year <= 9999 && 1 <= month && month <= 12 && 1 <= day && day <= 31
            && hour <= 23 && minute <= 59 && second <= 59 && -NANOS_LIMIT <= nanos && nanos
            <= NANOS_LIMIT {
            Some(Stamp { year, month, day, hour, minute, second, nanos })
        } else {
            None
        }
    }

    /// Nanoseconds since the Unix epoch.
    pub fn nanos(&self) -> (nanos: i128)
        ensures
            nanos == self.instant(),
            -NANOS_LIMIT <= nanos <= NANOS_LIMIT,
    {
        proof {
            use_type_invariant(self);
        }
        self.nanos
    }
}

/// The time of `time` as log lines show it.
pub fn ts(time: &Stamp) -> (text: String)
    ensures
        text@ == time.text(),
{
    proof {
        use_type_invariant(time);
        reveal_strlit("-");
        reveal_strlit(" ");
        reveal_strlit(":");
    }
    let mut text = String::new();
    if time.year < 0 {
        text.append("-");
        push_four_digits(&mut text, (-time.year) as u16);
    } else {
        push_four_digits(&mut text, time.year as u16);
    }
    text.append("-");
    push_two_digits(&mut text, time.month);
    text.append("-");
    push_two_digits(&mut text, time.day);
    text.append(" ");
    push_two_digits(&mut text, time.hour);
    text.append(":");
    push_two_digits(&mut text, time.minute);
    text.append(":");
    push_two_digits(&mut text, time.second);
    assert(text@ =~= time.text());
    text
}

/// The milliseconds from `start` to `now`, rounded to the nearest one.
pub fn elapsed_millis(start: &Stamp, now: &Stamp) -> (millis: i64)
    ensures
        millis == rounded_millis(now.instant() - start.instant()),
{
    let from = start.nanos();
    let to = now.nanos();
    let nanos: i128 = to - from;
    if nanos >= 0 {
        ((nanos + 500_000) / 1_000_000) as i64
    } else {
        let magnitude: i128 = (-nanos + 500_000) / 1_000_000;
        (-magnitude) as i64
    }
}

/// A duration of `millis` milliseconds as jiff's friendly format writes it.
pub uninterp spec fn friendly_duration(millis: int) -> Seq<char>;

/// jiff's `SpanPrinter::duration_to_string` with the default printer, on a
/// `SignedDuration` made by `from_millis`. The text is a function of the
/// duration alone; the contract gives it its name and says nothing of what it
/// holds.
#[verifier::external_body]
fn friendly(millis: i64) -> (text: String)
    ensures
        text@ == friendly_duration(millis as int),
{
    SpanPrinter::new().duration_to_string(&SignedDuration::from_millis(millis))
}

/// How long it took from `start` to `now`, in words.
pub fn took(start: &Stamp, now: &Stamp) -> (text: String)
    ensures
        text@ == friendly_duration(rounded_millis(now.instant() - start.instant())),
{
    friendly(elapsed_millis(start, now))
}

/// A source of the current time.
pub trait Clock {
    /// The current moment.
    fn now(&mut self) -> Stamp;
}

} // verus!
