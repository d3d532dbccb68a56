//! The canonical record and the outcome of a matching attempt.

use std::str::FromStr;
use vstd::prelude::*;
use vstd::std_specs::convert::TryFromSpecImpl;
use vstd::string::StringExecFns;
use crate::number::{decimal_text, digit_char, digit_text, push_decimal};
use crate::text::text_eq;
use crate::time::{is_instant, rfc3339_millis, Duration, Timestamp};

verus! {

/// Outcome of one attempt to identify a stream.
#[derive(Clone, Copy, Debug, PartialEq, Eq, Structural)]
pub enum Status {
    Match,
    NoMatch,
    NoData,
    NoSound,
}

/// A text that names no status.
#[derive(Clone, Debug)]
pub struct StatusParseErr {
    pub status_str: String,
}

/// The status that a text names, if it names one: the four tokens are matched
/// exactly and with their case.
pub open spec fn status_named(text: Seq<char>) -> Option<Status> {
    if text == "MATCH"@ {
        Some(Status::Match)
    } else if text == "NO_MATCH"@ {
        Some(Status::NoMatch)
    } else if text == "NO_DATA"@ {
        Some(Status::NoData)
    } else if text == "NO_SOUND"@ {
        Some(Status::NoSound)
    } else {
        None
    }
}

/// The status that a numeric code stands for, if it stands for one.
pub open spec fn status_coded(code: u32) -> Option<Status> {
    if code == 0 {
        Some(Status::Match)
    } else if code == 1 {
        Some(Status::NoMatch)
    } else if code == 2 {
        Some(Status::NoData)
    } else if code == 3 {
        Some(Status::NoSound)
    } else {
        None
    }
}

impl Status {
    /// The token that stands for this status in text.
    pub open spec fn token(self) -> Seq<char> {
        match self {
            Status::Match => "MATCH"@,
            Status::NoMatch => "NO_MATCH"@,
            Status::NoData => "NO_DATA"@,
            Status::NoSound => "NO_SOUND"@,
        }
    }

    /// The token that stands for this status in text.
    pub fn as_str(&self) -> (token: &'static str)
        ensures
            token@ == self.token(),
    {
        match self {
            Status::Match => "MATCH",
            Status::NoMatch => "NO_MATCH",
            Status::NoData => "NO_DATA",
            Status::NoSound => "NO_SOUND",
        }
    }
}

impl FromStr for Status {
    type Err = StatusParseErr;

    /// Reads a status from its token. Any other text is handed back in the error.
    fn from_str(s: &str) -> (parsed: Result<Status, StatusParseErr>)
        ensures
            match parsed {
                Ok(status) => status_named(s@) == Some(status),
                Err(err) => status_named(s@) is None && err.status_str@ == s@,
            },
    {
        if text_eq(s, "MATCH") {
            Ok(Status::Match)
        } else if text_eq(s, "NO_MATCH") {
            Ok(Status::NoMatch)
        } else if text_eq(s, "NO_DATA") {
            Ok(Status::NoData)
        } else if text_eq(s, "NO_SOUND") {
            Ok(Status::NoSound)
        } else {
            Err(StatusParseErr { status_str: s.to_owned() })
        }
    }
}

impl TryFrom<u32> for Status {
    type Error = StatusParseErr;

    /// Reads a status from its numeric code. Any other number is handed back
    /// in the error, written in decimal.
    fn try_from(value: u32) -> (read: Result<Status, StatusParseErr>)
        ensures
            match read {
                Ok(status) => status_coded(value) == Some(status),
                Err(err) => status_coded(value) is None && err.status_str@ == decimal_text(
                    value as nat,
                ),
            },
    {
        if value == 0 {
            Ok(Status::Match)
        } else if value == 1 {
            Ok(Status::NoMatch)
        } else if value == 2 {
            Ok(Status::NoData)
        } else if value == 3 {
            Ok(Status::NoSound)
        } else {
            let mut status_str = String::new();
            push_decimal(&mut status_str, value as u64);
            Err(StatusParseErr { status_str })
        }
    }
}

/// The error of a failed conversion holds a text, of which `==` sees the
/// characters only; so the conversion is described by the contract of
/// `try_from` and by no value.
impl TryFromSpecImpl<u32> for Status {
    open spec fn obeys_try_from_spec() -> bool {
        false
    }

    open spec fn try_from_spec(v: u32) -> Result<Status, StatusParseErr> {
        arbitrary()
    }
}

/// One normalised observation.
#[derive(Clone, Debug, PartialEq, Eq)]
pub struct ViewingPeriod {
    /// The upstream module that reported the period.
    pub provider: Option<String>,
    /// What the matching attempt came to.
    pub status: Status,
    /// The device or user.
    pub user_id: String,
    /// When the query was issued: the start of the interval.
    pub query_time: Timestamp,
    /// The instant in the recording that `query_time` corresponds to.
    pub time_in_file: Timestamp,
    /// The length of the interval.
    pub duration: Duration,
    /// The stream that was matched, if any.
    pub stream_id: Option<String>,
    /// What the upstream system calls this record.
    pub entry_id: Option<String>,
    /// The bit error rate of the match: the bits of a 32-bit IEEE 754 number.
    pub ber_bits: u32,
    /// Whether the upstream system calls the record valid.
    pub valid: bool,
}

/// A viewing period as mathematics sees it: texts are sequences of
/// characters, times are counted in milliseconds.
pub ghost struct PeriodView {
    pub provider: Option<Seq<char>>,
    pub status: Status,
    pub user_id: Seq<char>,
    pub query_time: int,
    pub time_in_file: int,
    pub duration: int,
    pub stream_id: Option<Seq<char>>,
    pub entry_id: Option<Seq<char>>,
    pub ber_bits: u32,
    pub valid: bool,
}

/// Whether a stream identifier names a stream: it is there, not empty, and
/// none of the tokens that stand for "nothing matched".
pub open spec fn names_stream(stream: Option<Seq<char>>) -> bool {
    match stream {
        Some(id) => id.len() != 0 && id != "0"@ && id != "NO_DATA"@ && id != "NO_MATCH"@ && id
            != "NO_SOUND"@,
        None => false,
    }
}

impl PeriodView {
    /// What holds of every normalised period: where a stream is named, the
    /// status is a match.
    pub open spec fn well_formed(self) -> bool {
        names_stream(self.stream_id) ==> self.status == Status::Match
    }
}

/// The characters of a string that may be absent.
pub open spec fn text_of(text: Option<String>) -> Option<Seq<char>> {
    match text {
        Some(s) => Some(s@),
        None => None,
    }
}

impl View for ViewingPeriod {
    type V = PeriodView;

    open spec fn view(&self) -> PeriodView {
        PeriodView {
            provider: text_of(self.provider),
            status: self.status,
            user_id: self.user_id@,
            query_time: self.query_time@,
            time_in_file: self.time_in_file@,
            duration: self.duration@,
            stream_id: text_of(self.stream_id),
            entry_id: text_of(self.entry_id),
            ber_bits: self.ber_bits,
            valid: self.valid,
        }
    }
}

/// The record before any column has been read: nobody's, unmatched, at the
/// epoch, with empty identifiers.
pub open spec fn blank_period() -> PeriodView {
    PeriodView {
        provider: None,
        status: Status::NoMatch,
        user_id: "NO_USER"@,
        query_time: 0,
        time_in_file: 0,
        duration: 0,
        stream_id: Some(Seq::empty()),
        entry_id: Some(Seq::empty()),
        ber_bits: 0,
        valid: false,
    }
}

impl Default for ViewingPeriod {
    fn default() -> (period: ViewingPeriod)
        ensures
            period@ == blank_period(),
            period@.well_formed(),
    {
        ViewingPeriod {
            provider: None,
            status: Status::NoMatch,
            user_id: "NO_USER".to_owned(),
            query_time: Timestamp::epoch(),
            time_in_file: Timestamp::epoch(),
            duration: Duration::zero(),
            stream_id: Some(String::new()),
            entry_id: Some(String::new()),
            ber_bits: 0,
            valid: false,
        }
    }
}

impl ViewingPeriod {
    /// When the interval ends: `query_time` and `duration` later. The end has
    /// to be an instant.
    pub fn end_time(&self) -> (end: Timestamp)
        requires
            is_instant(self@.query_time + self@.duration),
        ensures
            end@ == self@.query_time + self@.duration,
    {
        match self.query_time.checked_add(self.duration) {
            Some(end) => end,
            None => self.query_time,
        }
    }

    /// When the interval ends, where that is an instant.
    pub fn checked_end_time(&self) -> (end: Option<Timestamp>)
        ensures
            end is Some <==> is_instant(self@.query_time + self@.duration),
            end matches Some(t) ==> t@ == self@.query_time + self@.duration,
    {
        self.query_time.checked_add(self.duration)
    }

    /// How far the query time is ahead of the time in the file.
    pub fn offset(&self) -> (ahead: Duration)
        ensures
            ahead@ == self@.query_time - self@.time_in_file,
    {
        self.query_time.since(self.time_in_file)
    }
}

impl StatusParseErr {
    /// What went wrong, in words.
    pub open spec fn message_text(self) -> Seq<char> {
        "not a status: "@ + self.status_str@
    }

    /// What went wrong, in words.
    pub fn message(&self) -> (text: String)
        ensures
            text@ == self.message_text(),
    {
        let mut text = String::new();
        text.append("not a status: ");
        text.append(self.status_str.as_str());
        text
    }
}

/// A span in seconds with three decimals: a `-` where the span is negative,
/// the whole seconds, a point, and the milliseconds past them as three digits.
pub open spec fn seconds_text(millis: int) -> Seq<char> {
    let size = if millis < 0 {
        -millis
    } else {
        millis
    };
    let sign = if millis < 0 {
        seq!['-']
    } else {
        Seq::<char>::empty()
    };
    sign + decimal_text((size / 1000) as nat) + seq![
        '.',
        digit_char(size / 100 % 10),
        digit_char(size / 10 % 10),
        digit_char(size % 10),
    ]
}

/// Writes a span in seconds with three decimals.
pub fn print_duration(duration: Duration) -> (text: String)
    ensures
        text@ == seconds_text(duration@),
{
    let millis: i64 = duration.num_milliseconds();
    let mut text = String::new();
    if millis < 0 {
        proof {
            reveal_strlit("-");
        }
        text.append("-");
    }
    let size: u64 = if millis < 0 {
        (-millis) as u64
    } else {
        millis as u64
    };
    push_decimal(&mut text, size / 1000);
    proof {
        reveal_strlit(".");
    }
    text.append(".");
    text.append(digit_text(size / 100 % 10));
    text.append(digit_text(size / 10 % 10));
    text.append(digit_text(size % 10));
    text
}

/// A truth value in words.
pub open spec fn flag_text(flag: bool) -> Seq<char> {
    if flag {
        "true"@
    } else {
        "false"@
    }
}

/// The characters of a text that may be absent; none where it is.
pub open spec fn text_or_empty(text: Option<Seq<char>>) -> Seq<char> {
    match text {
        Some(s) => s,
        None => Seq::empty(),
    }
}

/// A period on one line. The bit error rate is written as the caller has
/// rendered it; spans are in seconds with three decimals, instants in RFC 3339
/// with milliseconds.
pub open spec fn described(period: PeriodView, ber: Seq<char>) -> Seq<char> {
    "user_id: "@ + period.user_id + ", "@
        + "status: "@ + period.status.token() + ", "@
        + "stream_id: "@ + text_or_empty(period.stream_id)
        + "entry_id: "@ + text_or_empty(period.entry_id)
        + "offset_s: "@ + seconds_text(period.query_time - period.time_in_file) + ", "@
        + "startTime: "@ + rfc3339_millis(period.query_time as i64) + ", "@
        + "endTime: "@ + rfc3339_millis((period.query_time + period.duration) as i64) + ", "@
        + "duration: "@ + seconds_text(period.duration) + ", "@
        + "ber: "@ + ber + ", "@
        + "valid: "@ + flag_text(period.valid)
}

fn append_or_empty(text: &mut String, part: &Option<String>)
    ensures
        final(text)@ == old(text)@ + text_or_empty(text_of(*part)),
{
    match part {
        Some(s) => {
            text.append(s.as_str());
        },
        None => {},
    }
}

impl ViewingPeriod {
    /// This period on one line. `ber` is the bit error rate as it is to be
    /// shown, with two decimals. The interval has to end at an instant.
    pub fn describe(&self, ber: &str) -> (text: String)
        requires
            is_instant(self@.query_time + self@.duration),
        ensures
            text@ == described(self@, ber@),
    {
        let mut text = String::new();
        text.append("user_id: ");
        text.append(self.user_id.as_str());
        text.append(", ");
        text.append("status: ");
        text.append(self.status.as_str());
        text.append(", ");
        text.append("stream_id: ");
        append_or_empty(&mut text, &self.stream_id);
        text.append("entry_id: ");
        append_or_empty(&mut text, &self.entry_id);
        text.append("offset_s: ");
        text.append(print_duration(self.offset()).as_str());
        text.append(", ");
        text.append("startTime: ");
        text.append(self.query_time.to_rfc3339().as_str());
        text.append(", ");
        text.append("endTime: ");
        text.append(self.end_time().to_rfc3339().as_str());
        text.append(", ");
        text.append("duration: ");
        text.append(print_duration(self.duration).as_str());
        text.append(", ");
        text.append("ber: ");
        text.append(ber);
        text.append(", ");
        text.append("valid: ");
        text.append(if self.valid {
            "true"
        } else {
            "false"
        });
        text
    }
}

/// Every status is named by its own token.
pub proof fn lemma_token_names_status(status: Status)
    ensures
        status_named(status.token()) == Some(status),
{
    reveal_strlit("MATCH");
    reveal_strlit("NO_MATCH");
    reveal_strlit("NO_DATA");
    reveal_strlit("NO_SOUND");
    assert("MATCH"@.len() == 5);
    assert("NO_MATCH"@.len() == 8);
    assert("NO_DATA"@.len() == 7);
    assert("NO_SOUND"@[3] == 'S');
    assert("NO_MATCH"@[3] == 'M');
}

} // verus!
