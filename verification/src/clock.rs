//! The two clocks of the engine: a monotonic one for the sliding windows and
//! the wall clock that stamps alerts.
use vstd::prelude::*;
use std::time::{Duration, Instant, SystemTime, SystemTimeError};

verus! {

/// A moment on the monotonic clock.
#[verifier::external_type_specification]
#[verifier::external_body]
pub struct ExInstant(Instant);

/// A time on the wall clock.
#[verifier::external_type_specification]
#[verifier::external_body]
pub struct ExSystemTime(SystemTime);

/// The error of asking how far a time lies after a later one.
#[verifier::external_type_specification]
#[verifier::external_body]
pub struct ExSystemTimeError(SystemTimeError);

/// `Instant::now` reads the monotonic clock; nothing is known of the moment
/// it returns.
pub assume_specification[ Instant::now ]() -> (moment: Instant);

/// `Instant::saturating_duration_since` measures the time from an earlier
/// moment to this one, and gives the empty length where the other moment is
/// the later one.
pub assume_specification[ Instant::saturating_duration_since ](
    moment: &Instant,
    earlier: Instant,
) -> (length: Duration);

/// `SystemTime::now` reads the wall clock; nothing is known of the time it
/// returns.
pub assume_specification[ SystemTime::now ]() -> (time: SystemTime);

/// `Duration::as_nanos` gives the length in whole nanoseconds.
pub assume_specification[ Duration::as_nanos ](length: &Duration) -> (nanos: u128);

/// `Duration::as_secs` gives the whole seconds of a length.
pub assume_specification[ Duration::as_secs ](length: &Duration) -> (secs: u64);

/// `Duration::subsec_nanos` gives the nanoseconds of a length beyond its
/// whole seconds.
pub assume_specification[ Duration::subsec_nanos ](length: &Duration) -> (nanos: u32);

/// `SystemTime::duration_since`, asked for the time since
/// `SystemTime::UNIX_EPOCH`: how far a time lies after the start of 1970
/// (UTC); it fails where the time lies before that.
#[verifier::external_body]
pub(crate) fn since_epoch(time: &SystemTime) -> (length: Result<Duration, SystemTimeError>) {
    time.duration_since(SystemTime::UNIX_EPOCH)
}

/// The character is one of the ten decimal digits.
pub open spec fn is_digit(c: char) -> bool {
    c == '0' || c == '1' || c == '2' || c == '3' || c == '4' || c == '5' || c == '6' || c == '7'
        || c == '8' || c == '9'
}

/// The text has the form `-MM-DD HH:MM:SS`: month, day, hour, minute and
/// second as two digits each.
pub open spec fn is_clock_tail(text: Seq<char>) -> bool {
    &&& text.len() == 15
    &&& text[0] == '-' && is_digit(text[1]) && is_digit(text[2])
    &&& text[3] == '-' && is_digit(text[4]) && is_digit(text[5])
    &&& text[6] == ' ' && is_digit(text[7]) && is_digit(text[8])
    &&& text[9] == ':' && is_digit(text[10]) && is_digit(text[11])
    &&& text[12] == ':' && is_digit(text[13]) && is_digit(text[14])
}

/// The text is a calendar stamp: a year of at least four characters, then
/// `-MM-DD HH:MM:SS`.
pub open spec fn is_calendar_stamp(text: Seq<char>) -> bool {
    text.len() >= 19 && is_clock_tail(text.subrange(text.len() - 15, text.len() as int))
}

/// The text is a calendar stamp of the form `YYYY-MM-DD HH:MM:SS`, with a
/// year of four digits.
pub open spec fn is_short_stamp(text: Seq<char>) -> bool {
    &&& text.len() == 19
    &&& is_calendar_stamp(text)
    &&& is_digit(text[0]) && is_digit(text[1]) && is_digit(text[2]) && is_digit(text[3])
}

/// The last second, counted from the start of 1970 (UTC), that lies more
/// than a day before the end of the year 9999: up to it the year has four
/// digits in every time zone.
pub const LAST_SHORT_STAMP: u64 = 253_402_214_399;

/// The moment lies in the years whose stamps have four digits, and its
/// nanoseconds are less than a second.
pub open spec fn has_short_stamp(secs: i64, nanos: u32) -> bool {
    0 <= secs <= LAST_SHORT_STAMP && nanos < 1_000_000_000
}

/// What holds of the stamp of the moment `secs` seconds and `nanos`
/// nanoseconds after the start of 1970 (UTC), whatever zone the machine is
/// set to: a moment with a short stamp has one, and any stamp is a calendar
/// stamp.
pub open spec fn is_stamp_of(stamp: Option<String>, secs: i64, nanos: u32) -> bool {
    match stamp {
        Some(text) => if has_short_stamp(secs, nanos) {
            is_short_stamp(text@)
        } else {
            is_calendar_stamp(text@)
        },
        None => !has_short_stamp(secs, nanos),
    }
}

/// The calendar form, in the machine's time zone, of the moment `secs`
/// seconds and `nanos` nanoseconds after the start of 1970 (UTC), as
/// chrono's `DateTime::from_timestamp`, `DateTime::with_timezone` and
/// `DateTime::format` with `%Y-%m-%d %H:%M:%S` give it; none for a moment
/// beyond chrono's calendar.  Which day and hour the text names depends on
/// the zone that the machine is set to.  In every zone it is a year of at
/// least four characters followed by month, day, hour, minute and second
/// as two digits each, and a moment from 1970 to the day before the last
/// of 9999 has a text with a year of four digits.
#[verifier::external_body]
pub(crate) fn local_stamp(secs: i64, nanos: u32) -> (stamp: Option<String>)
    ensures
        is_stamp_of(stamp, secs, nanos),
{
    let utc = chrono::DateTime::from_timestamp(secs, nanos)?;
    Some(utc.with_timezone(&chrono::Local).format("%Y-%m-%d %H:%M:%S").to_string())
}

/// The timestamp for `nanos` nanoseconds on the monotonic clock: the
/// nanoseconds themselves, or the largest timestamp if they exceed it.
pub open spec fn timestamp_of(nanos: u128) -> i128 {
    if nanos > i128::MAX {
        i128::MAX
    } else {
        nanos as i128
    }
}

/// The timestamp for `nanos` nanoseconds on the monotonic clock.
pub fn timestamp_from_nanos(nanos: u128) -> (timestamp: i128)
    ensures
        timestamp == timestamp_of(nanos),
        0 <= timestamp,
{
    if nanos > i128::MAX as u128 {
        i128::MAX
    } else {
        nanos as i128
    }
}

/// The nanoseconds that have passed on the monotonic clock since `start`;
/// the largest timestamp if they exceed it.
pub fn nanos_since(start: &Instant) -> (now: i128)
    ensures
        0 <= now,
{
    let moment = Instant::now();
    let length = moment.saturating_duration_since(*start);
    timestamp_from_nanos(length.as_nanos())
}

/// The calendar form, in the machine's time zone, of the moment `secs`
/// seconds and `nanos` nanoseconds after the start of 1970 (UTC); none for
/// a moment beyond the calendar.
pub fn stamp_at(secs: u64, nanos: u32) -> (stamp: Option<String>)
    ensures
        secs > i64::MAX ==> stamp.is_none(),
        secs <= i64::MAX ==> is_stamp_of(stamp, secs as i64, nanos),
        stamp matches Some(text) ==> is_calendar_stamp(text@),
{
    if secs <= i64::MAX as u64 {
        local_stamp(secs as i64, nanos)
    } else {
        None
    }
}

/// The calendar form of a wall-clock time in the machine's time zone; none
/// for a time before 1970 or beyond the calendar.
pub(crate) fn calendar_stamp(time: &SystemTime) -> (stamp: Option<String>)
    ensures
        stamp matches Some(text) ==> is_calendar_stamp(text@),
{
    match since_epoch(time) {
        Ok(since) => stamp_at(since.as_secs(), since.subsec_nanos()),
        Err(_) => None,
    }
}

} // verus!
