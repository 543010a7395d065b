//! Instants of the UTC clock, their text, and the time elapsed between two of
//! them.

use crate::text::{decimal, fixed_decimal, push_decimal, push_fixed_decimal};
use vstd::prelude::*;
use vstd::string::*;

verus! {

/// An instant: whole seconds since the start of 1970 in UTC, and the
/// microseconds since that second began.
#[derive(Clone, Copy, Debug, PartialEq, Eq)]
pub struct Timestamp {
    pub secs: i64,
    pub micros: u32,
}

/// What separates whole seconds from the fraction in the text of a duration.
pub const POINT: &'static str = ".";

/// The text of the instant `secs` seconds after the start of 1970 in UTC, as
/// `chrono` writes it under the format `%F %T`; `None` where `chrono` has no
/// date for that instant.
pub uninterp spec fn utc_text(secs: int) -> Option<Seq<char>>;

/// Reads the clock with `chrono::Utc::now`, and takes the seconds and
/// microseconds of the instant it gives. Nothing is known of the instant but
/// that `chrono` has a date for it. The call panics where the system clock
/// stands before 1970.
#[verifier::external_body]
pub(crate) fn utc_now() -> (now: Timestamp)
    ensures
        utc_text(now.secs as int) is Some,
{
    let now = chrono::Utc::now();
    Timestamp { secs: now.timestamp(), micros: now.timestamp_subsec_micros() }
}

/// Makes the instant with `chrono::DateTime::from_timestamp` and writes it
/// with `format("%F %T")`: the date and the time of day in UTC, to the second.
#[verifier::external_body]
pub(crate) fn format_utc(secs: i64) -> (text: Option<String>)
    ensures
        match text {
            Some(t) => utc_text(secs as int) == Some(t@),
            None => utc_text(secs as int) is None,
        },
{
    chrono::DateTime::from_timestamp(secs, 0).map(|at| at.format("%F %T").to_string())
}

/// Writes the machine's time zone as `chrono::Local::now().format("%Z")`
/// gives it; for the local zone `chrono` writes the offset from UTC. Nothing
/// is known of the text.
#[verifier::external_body]
pub(crate) fn local_timezone() -> String {
    chrono::Local::now().format("%Z").to_string()
}

/// The text of `at` as a date and a time of day in UTC, to the second;
/// nothing for an instant outside the calendar.
pub open spec fn timestamp_text(at: Timestamp) -> Option<Seq<char>> {
    utc_text(at.secs as int)
}

/// The microseconds from `start` to `end`; negative where `end` is the
/// earlier.
pub open spec fn micros_between(start: Timestamp, end: Timestamp) -> int {
    (end.secs - start.secs) * 1_000_000 + (end.micros - start.micros)
}

/// The time elapsed from `start` to `end` in microseconds; zero where the
/// clock went back.
pub open spec fn elapsed_micros(start: Timestamp, end: Timestamp) -> int {
    if micros_between(start, end) >= 0 {
        micros_between(start, end)
    } else {
        0
    }
}

/// A duration in hundred-thousandths of a second, rounded to the nearest,
/// halves up.
pub open spec fn hundred_thousandths(micros: int) -> int {
    (micros + 5) / 10
}

/// The text of a duration in seconds with five decimals: the whole seconds,
/// a point, and five digits.
pub open spec fn seconds_text(micros: int) -> Seq<char> {
    decimal((hundred_thousandths(micros) / 100_000) as nat) + POINT@ + fixed_decimal(
        (hundred_thousandths(micros) % 100_000) as nat,
        5,
    )
}

impl Timestamp {
    /// The instant `micros` microseconds into the second `secs`.
    pub fn new(secs: i64, micros: u32) -> (at: Timestamp)
        ensures
            at.secs == secs,
            at.micros == micros,
    {
        Timestamp { secs, micros }
    }

    /// The date and the time of day of this instant in UTC, to the second;
    /// nothing for an instant outside the calendar.
    pub fn text(&self) -> (text: Option<String>)
        ensures
            match text {
                Some(t) => timestamp_text(*self) == Some(t@),
                None => timestamp_text(*self) is None,
            },
    {
        format_utc(self.secs)
    }

    /// The time elapsed from this instant to `end` in microseconds; zero
    /// where `end` is the earlier.
    pub fn micros_until(&self, end: Timestamp) -> (micros: u128)
        ensures
            micros == elapsed_micros(*self, end),
    {
        let gap: i128 = (end.secs as i128 - self.secs as i128) * 1_000_000 + (end.micros as i128
            - self.micros as i128);
        if gap >= 0 {
            gap as u128
        } else {
            0
        }
    }
}

/// The time elapsed from `start` to `end` in seconds with five decimals.
pub fn seconds_with_micro(start: Timestamp, end: Timestamp) -> (text: String)
    ensures
        text@ == seconds_text(elapsed_micros(start, end)),
{
    let micros = start.micros_until(end);
    let units: u128 = (micros + 5) / 10;
    let mut text = String::new();
    push_decimal(&mut text, units / 100_000);
    text.append(POINT);
    push_fixed_decimal(&mut text, units % 100_000, 5);
    text
}

/// The time elapsed since `start` in seconds with five decimals: up to `end`
/// where one is given, and up to now where none is.
pub fn get_seconds_with_micro(start: Timestamp, end: Option<Timestamp>) -> (text: String)
    ensures
        match end {
            Some(e) => text@ == seconds_text(elapsed_micros(start, e)),
            None => exists|now: Timestamp| text@ == seconds_text(elapsed_micros(start, now)),
        },
{
    match end {
        Some(e) => seconds_with_micro(start, e),
        None => {
            let now = utc_now();
            seconds_with_micro(start, now)
        },
    }
}

/// The elapsed time is never negative, and is the very distance between the
/// two instants where the second is not the earlier.
pub proof fn lemma_elapsed_nonnegative(start: Timestamp, end: Timestamp)
    ensures
        elapsed_micros(start, end) >= 0,
        hundred_thousandths(elapsed_micros(start, end)) >= 0,
        micros_between(start, end) >= 0 ==> elapsed_micros(start, end) == micros_between(
            start,
            end,
        ),
{
}

/// The elapsed time grows with the end: of two ends, the later gives at least
/// as much, in microseconds and in the rounded figure that is written.
pub proof fn lemma_elapsed_monotonic(start: Timestamp, earlier: Timestamp, later: Timestamp)
    requires
        micros_between(earlier, later) >= 0,
    ensures
        elapsed_micros(start, earlier) <= elapsed_micros(start, later),
        hundred_thousandths(elapsed_micros(start, earlier)) <= hundred_thousandths(
            elapsed_micros(start, later),
        ),
{
    assert(micros_between(start, later) == micros_between(start, earlier) + micros_between(
        earlier,
        later,
    )) by (nonlinear_arith);
}

} // verus!
