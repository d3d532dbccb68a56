//! Instants and spans of time, in whole milliseconds.
//!
//! An instant is counted in milliseconds from the Unix epoch, in UTC, and
//! stays within the years that the `chrono` crate can represent. A span is a
//! signed number of milliseconds whose sign can always be turned.

use vstd::prelude::*;
use chrono::{DateTime, SecondsFormat, TimeZone, Utc};

verus! {

/// The first instant: the start of the year 262144 BCE.
pub const MIN_EPOCH_MILLIS: i64 = -8_334_601_228_800_000;

/// The last instant: the last millisecond of the year 262142 CE.
pub const MAX_EPOCH_MILLIS: i64 = 8_210_266_876_799_999;

/// Whether a number of milliseconds since the epoch is an instant.
pub open spec fn is_instant(millis: int) -> bool {
    MIN_EPOCH_MILLIS <= millis <= MAX_EPOCH_MILLIS
}

/// Whether a number of milliseconds is a span.
pub open spec fn is_span(millis: int) -> bool {
    -i64::MAX <= millis <= i64::MAX
}

/// What `chrono` reads from a text laid out as `%F %T%.3f` (year, month and
/// day, a blank, hour, minute and second, then at will a point and three
/// digits), taken as UTC: the whole non-leap seconds from the epoch, and the
/// nanoseconds past that second. `None` where `chrono` does not accept the text.
pub uninterp spec fn datetime_reading(text: Seq<char>) -> Option<(i64, u32)>;

/// Reads a date and time of day in UTC.
///
/// Trusted: calls `chrono::TimeZone::datetime_from_str` on `Utc` with the
/// layout `%F %T%.3f`, and hands out `timestamp()` and
/// `timestamp_subsec_nanos()` of the `DateTime` that it returns. The contract
/// claims only that the outcome depends on the text alone.
#[verifier::external_body]
#[allow(deprecated)]
pub(crate) fn read_datetime(text: &str) -> (reading: Option<(i64, u32)>)
    ensures
        reading == datetime_reading(text@),
{
    match Utc.datetime_from_str(text, "%F %T%.3f") {
        Ok(datetime) => Some((datetime.timestamp(), datetime.timestamp_subsec_nanos())),
        Err(_) => None,
    }
}

/// The text that `chrono` writes for an instant in RFC 3339, with three
/// decimals of the second and `Z` for UTC.
pub uninterp spec fn rfc3339_millis(millis: i64) -> Seq<char>;

/// Writes an instant in RFC 3339.
///
/// Trusted: calls `chrono::DateTime::from_timestamp_millis`, and on the
/// `DateTime` that it returns `to_rfc3339_opts` with `SecondsFormat::Millis`
/// and `Z` for UTC. The contract claims only that the text depends on the
/// number of milliseconds alone.
#[verifier::external_body]
pub(crate) fn write_rfc3339(millis: i64) -> (text: String)
    requires
        is_instant(millis as int),
    ensures
        text@ == rfc3339_millis(millis),
{
    match DateTime::from_timestamp_millis(millis) {
        Some(datetime) => datetime.to_rfc3339_opts(SecondsFormat::Millis, true),
        None => String::new(),
    }
}

/// Milliseconds from the epoch to the instant that a reading of whole seconds
/// and nanoseconds gives; what is less than a millisecond is dropped.
pub open spec fn reading_millis(reading: (i64, u32)) -> int {
    reading.0 * 1000 + reading.1 / 1_000_000
}

/// A signed span of time in whole milliseconds.
#[derive(Clone, Copy, Debug, PartialEq, Eq, Structural)]
pub struct Duration {
    millis: i64,
}

impl View for Duration {
    type V = int;

    closed spec fn view(&self) -> int {
        self.millis as int
    }
}

impl Duration {
    #[verifier::type_invariant]
    spec fn well_formed(self) -> bool {
        is_span(self.millis as int)
    }

    /// The empty span.
    pub fn zero() -> (span: Duration)
        ensures
            span@ == 0,
    {
        Duration { millis: 0 }
    }

    /// The span of so many milliseconds, unless its sign could not be turned.
    pub fn from_millis(millis: i64) -> (span: Option<Duration>)
        ensures
            span is Some <==> is_span(millis as int),
            span matches Some(d) ==> d@ == millis,
    {
        if millis == i64::MIN {
            None
        } else {
            Some(Duration { millis })
        }
    }

    /// The span in milliseconds.
    pub fn num_milliseconds(&self) -> (millis: i64)
        ensures
            millis == self@,
            is_span(millis as int),
    {
        proof {
            use_type_invariant(self);
        }
        self.millis
    }
}

/// An instant in UTC, to the millisecond.
#[derive(Clone, Copy, Debug, PartialEq, Eq, Structural)]
pub struct Timestamp {
    millis: i64,
}

impl View for Timestamp {
    type V = int;

    closed spec fn view(&self) -> int {
        self.millis as int
    }
}

impl Timestamp {
    #[verifier::type_invariant]
    spec fn well_formed(self) -> bool {
        is_instant(self.millis as int)
    }

    /// The Unix epoch, 1970-01-01 00:00:00 UTC.
    pub fn epoch() -> (instant: Timestamp)
        ensures
            instant@ == 0,
    {
        Timestamp { millis: 0 }
    }

    /// The instant so many milliseconds from the epoch, if there is one.
    pub fn from_millis(millis: i64) -> (instant: Option<Timestamp>)
        ensures
            instant is Some <==> is_instant(millis as int),
            instant matches Some(t) ==> t@ == millis,
    {
        if MIN_EPOCH_MILLIS <= millis && millis <= MAX_EPOCH_MILLIS {
            Some(Timestamp { millis })
        } else {
            None
        }
    }

    /// The instant that a reading of whole seconds and nanoseconds gives, to
    /// the millisecond, if there is one.
    pub fn from_reading(reading: (i64, u32)) -> (instant: Option<Timestamp>)
        ensures
            instant is Some <==> is_instant(reading_millis(reading)),
            instant matches Some(t) ==> t@ == reading_millis(reading),
    {
        let millis: i128 = reading.0 as i128 * 1000 + (reading.1 / 1_000_000) as i128;
        if MIN_EPOCH_MILLIS as i128 <= millis && millis <= MAX_EPOCH_MILLIS as i128 {
            Some(Timestamp { millis: millis as i64 })
        } else {
            None
        }
    }

    /// This instant in RFC 3339, with three decimals of the second.
    pub fn to_rfc3339(&self) -> (text: String)
        ensures
            text@ == rfc3339_millis(self@ as i64),
    {
        write_rfc3339(self.timestamp_millis())
    }

    /// Milliseconds from the epoch to this instant.
    pub fn timestamp_millis(&self) -> (millis: i64)
        ensures
            millis == self@,
            is_instant(millis as int),
    {
        proof {
            use_type_invariant(self);
        }
        self.millis
    }

    /// Milliseconds since the last whole second.
    pub fn timestamp_subsec_millis(&self) -> (millis: u32)
        ensures
            millis == self@ % 1000,
    {
        let m: i64 = self.timestamp_millis();
        let r: i64 = m % 1000;
        if r < 0 {
            (r + 1000) as u32
        } else {
            r as u32
        }
    }

    /// The instant a span later, if there is one.
    pub fn checked_add(&self, span: Duration) -> (instant: Option<Timestamp>)
        ensures
            instant is Some <==> is_instant(self@ + span@),
            instant matches Some(t) ==> t@ == self@ + span@,
    {
        match self.timestamp_millis().checked_add(span.num_milliseconds()) {
            Some(millis) => Timestamp::from_millis(millis),
            None => None,
        }
    }

    /// The instant a span earlier, if there is one.
    pub fn checked_sub(&self, span: Duration) -> (instant: Option<Timestamp>)
        ensures
            instant is Some <==> is_instant(self@ - span@),
            instant matches Some(t) ==> t@ == self@ - span@,
    {
        match self.timestamp_millis().checked_sub(span.num_milliseconds()) {
            Some(millis) => Timestamp::from_millis(millis),
            None => None,
        }
    }

    /// The span from an earlier instant to this one; negative where the other
    /// instant is the later one.
    pub fn since(&self, earlier: Timestamp) -> (span: Duration)
        ensures
            span@ == self@ - earlier@,
    {
        let millis: i64 = self.timestamp_millis() - earlier.timestamp_millis();
        Duration { millis }
    }
}

} // verus!
