//! The clock.

use crate::numbers::is_digit;
use crate::text::optional_text;
use chrono::DateTime;
use std::time::{SystemTime, UNIX_EPOCH};
use vstd::prelude::*;

verus! {

/// Whether `year` is a year as a timestamp writes it: four digits, a `+`
/// and five digits or more, or a `-` and four digits or more.
pub open spec fn is_year(year: Seq<char>) -> bool {
    ||| year.len() == 4 && forall|i: int| 0 <= i < 4 ==> is_digit(#[trigger] year[i])
    ||| year.len() >= 6 && year[0] == '+' && forall|i: int|
        1 <= i < year.len() ==> is_digit(#[trigger] year[i])
    ||| year.len() >= 5 && year[0] == '-' && forall|i: int|
        1 <= i < year.len() ==> is_digit(#[trigger] year[i])
}

/// The character that separates the numbers of a timestamp at a position
/// of `-01-15T10:30:00.123Z`, where one stands there.
pub open spec fn separator_at(position: int) -> Option<char> {
    if position == 0 || position == 3 {
        Some('-')
    } else if position == 6 {
        Some('T')
    } else if position == 9 || position == 12 {
        Some(':')
    } else if position == 15 {
        Some('.')
    } else if position == 19 {
        Some('Z')
    } else {
        None
    }
}

/// Whether `rest` is what follows the year in a timestamp: month, day,
/// hour, minute and second in two digits each and the milliseconds in three,
/// with their separators, as in `-01-15T10:30:00.123Z`.
pub open spec fn is_time_of_year(rest: Seq<char>) -> bool {
    &&& rest.len() == 20
    &&& forall|i: int|
        0 <= i < 20 ==> match separator_at(i) {
            Some(separator) => #[trigger] rest[i] == separator,
            None => is_digit(rest[i]),
        }
}

/// Whether `text` is a timestamp: a date and a time of day with
/// milliseconds, in UTC, as in `2024-01-15T10:30:00.123Z`. With a year of four
/// digits it has 24 characters; a year below 0 or from 10000 on makes it
/// longer.
pub open spec fn is_timestamp(text: Seq<char>) -> bool {
    &&& text.len() >= 24
    &&& is_year(text.take(text.len() - 20))
    &&& is_time_of_year(text.skip(text.len() - 20))
}

/// A timestamp holds digits and the characters `-`, `T`, `:`, `.`, `Z` and
/// `+`, and so no line feed.
pub proof fn lemma_timestamp_is_one_line(text: Seq<char>)
    requires
        is_timestamp(text),
    ensures
        forall|i: int| 0 <= i < text.len() ==> #[trigger] text[i] != '\n',
{
    let split: int = text.len() - 20;
    let year = text.take(split);
    let rest = text.skip(split);
    assert forall|i: int| 0 <= i < text.len() implies #[trigger] text[i] != '\n' by {
        if i < split {
            assert(text[i] == year[i]);
        } else {
            assert(text[i] == rest[i - split]);
        }
    }
}

/// What a clock reads: how far its time lies from the start of 1970 in
/// UTC, in whole seconds and nanoseconds, and on which side.
#[derive(Clone, Copy, Debug, PartialEq, Eq, Structural)]
pub struct ClockReading {
    /// Whether the time lies before the start of 1970.
    pub before_epoch: bool,
    /// The whole seconds of the distance.
    pub seconds: u64,
    /// The nanoseconds of the distance beyond the whole seconds.
    pub nanos: u32,
}

/// The timestamp of a time given in seconds and nanoseconds since the
/// start of 1970 in UTC: what `chrono::DateTime::from_timestamp` and
/// `DateTime::format` make of them, where the time is one that chrono holds.
pub uninterp spec fn utc_form(seconds: i64, nanos: u32) -> Option<Seq<char>>;

/// The seconds and nanoseconds since the start of 1970 that a reading of
/// the clock stands for. A time before 1970 counts its seconds below zero
/// and its nanoseconds upwards from them.
pub open spec fn since_epoch(reading: ClockReading) -> (int, int) {
    if !reading.before_epoch {
        (reading.seconds as int, reading.nanos as int)
    } else if reading.nanos == 0 {
        (-(reading.seconds as int), 0)
    } else {
        (-(reading.seconds as int) - 1, 1_000_000_000 - reading.nanos)
    }
}

/// The timestamp of a reading of the clock; none where the reading is
/// none that a clock gives (a second or more of nanoseconds, or more seconds
/// than a signed number of 64 bits counts) or lies beyond the times that a
/// timestamp can hold.
pub open spec fn timestamp_of(reading: ClockReading) -> Option<Seq<char>> {
    let (seconds, nanos) = since_epoch(reading);
    if reading.nanos < 1_000_000_000 && reading.seconds <= i64::MAX {
        utc_form(seconds as i64, nanos as u32)
    } else {
        None
    }
}

/// Reads the clock with `std::time::SystemTime::now` and gives how far
/// its time lies from `UNIX_EPOCH`, as `SystemTime::duration_since` tells it:
/// the distance itself for a time from 1970 on, and the distance that the
/// error carries for a time before. The nanoseconds are those of
/// `Duration::subsec_nanos`, which are fewer than a second.
#[verifier::external_body]
fn read_clock() -> (reading: ClockReading)
    ensures
        reading.nanos < 1_000_000_000,
{
    match SystemTime::now().duration_since(UNIX_EPOCH) {
        Ok(after) => ClockReading {
            before_epoch: false,
            seconds: after.as_secs(),
            nanos: after.subsec_nanos(),
        },
        Err(before) => ClockReading {
            before_epoch: true,
            seconds: before.duration().as_secs(),
            nanos: before.duration().subsec_nanos(),
        },
    }
}

/// The timestamp of a time given in seconds and nanoseconds since the
/// start of 1970 in UTC. `chrono::DateTime::from_timestamp` gives the time,
/// or nothing where it lies beyond the dates that chrono holds or the
/// nanoseconds are none; `DateTime::format` with `%Y-%m-%dT%H:%M:%S%.3fZ`
/// writes the year in four digits (with a sign before a year below 0 or from
/// 10000 on), month, day, hour, minute and second in two digits each, the
/// milliseconds in three after a point, and the `-`, `T`, `:` and `Z` of the
/// format between them.
#[verifier::external_body]
fn write_utc(seconds: i64, nanos: u32) -> (text: Option<String>)
    ensures
        optional_text(text) == utc_form(seconds, nanos),
        text matches Some(written) ==> is_timestamp(written@),
{
    match DateTime::from_timestamp(seconds, nanos) {
        Some(time) => Some(time.format("%Y-%m-%dT%H:%M:%S%.3fZ").to_string()),
        None => None,
    }
}

/// The timestamp of a reading of the clock.
pub fn timestamp_at(reading: ClockReading) -> (text: Option<String>)
    ensures
        optional_text(text) == timestamp_of(reading),
        text matches Some(written) ==> is_timestamp(written@),
{
    if reading.nanos >= 1_000_000_000 || reading.seconds > 0x7fff_ffff_ffff_ffff {
        return None;
    }
    let seconds: i64 = reading.seconds as i64;
    if !reading.before_epoch {
        write_utc(seconds, reading.nanos)
    } else if reading.nanos == 0 {
        write_utc(-seconds, 0)
    } else {
        write_utc(-seconds - 1, 1_000_000_000 - reading.nanos)
    }
}

/// The current time in UTC as a timestamp, where the clock reads a time
/// that a timestamp can hold.
pub fn get_utc_time() -> (now: Option<String>)
    ensures
        now matches Some(written) ==> is_timestamp(written@),
{
    timestamp_at(read_clock())
}

} // verus!
