//! From the lines of a table to viewing periods.
//!
//! The header names the columns. A column name selects one of a fixed set of
//! actions on the record in progress; the cell is read as that action calls
//! for; after every cell the dependent fields are derived anew. A cell that
//! cannot be read as its column demands ends the row, and with it the table.
//!
//! Nothing here computes with floating point. Where a column holds a decimal
//! number, the caller supplies what floating point makes of the cell as a
//! [`Decimal`], one for each cell of the row.

use std::path::Path;
use std::str::FromStr;
use vstd::prelude::*;
use crate::number::{decimal_i64, parse_i64};
use crate::text::{clean_cell, cleaned, split, split_fields, text_eq, texts};
use crate::time::{
    datetime_reading, is_instant, is_span, read_datetime, reading_millis, Duration, Timestamp,
};
use crate::viewingperiod::{
    blank_period, names_stream, status_named, text_of, PeriodView, Status, ViewingPeriod,
};

verus! {

/// What a column does to the record in progress.
#[derive(Clone, Copy, Debug, PartialEq, Eq, Structural)]
pub enum FieldAction {
    /// Sets the status from its token.
    SetStatus,
    /// Sets the user.
    SetUserId,
    /// Sets the time in the file from milliseconds since the epoch.
    SetTimeInFile,
    /// Sets the query time from milliseconds since the epoch.
    SetQueryTime,
    /// Sets the query time from a date and time of day.
    SetQueryTimeText,
    /// Sets the duration from whole milliseconds.
    SetDuration,
    /// Sets the duration from seconds with a fraction.
    SetDurationSeconds,
    /// Sets the stream.
    SetStreamId,
    /// Sets the provider.
    SetProvider,
    /// Sets the identifier of the record.
    SetEntryId,
    /// Sets the bit error rate.
    SetBer,
    /// Sets the validity flag.
    SetValid,
    /// Notes an offset in whole milliseconds.
    SetOffset,
    /// Notes an offset in seconds with a fraction.
    SetOffsetSeconds,
    /// Notes the end of the interval from a date and time of day.
    SetEndTime,
}

/// Why a cell ended its row.
#[derive(Clone, Copy, Debug, PartialEq, Eq, Structural)]
pub enum CellError {
    /// The cell should hold a signed 64-bit integer and does not.
    NotAnInteger,
    /// The cell should hold a decimal number, and floating point read none.
    NotADecimal,
    /// The cell should hold a date and time of day in the fixed form and does not.
    NotADatetime,
    /// The cell counts milliseconds to a time that is no instant.
    NoSuchInstant,
    /// The cell counts milliseconds that make no span.
    NoSuchSpan,
    /// The time in the file, derived from query time and offset, is no instant.
    DerivedNoInstant,
}

/// The cell that ended a row, and why.
#[derive(Clone, Copy, Debug, PartialEq, Eq, Structural)]
pub struct RowError {
    /// The position of the column, counted from zero.
    pub column: usize,
    pub kind: CellError,
}

/// Why a table gave no periods.
#[derive(Clone, Copy, Debug, PartialEq, Eq, Structural)]
pub enum ReadError {
    /// There is no first line to name the columns.
    MissingHeader,
    /// A cell could not be read. `line` counts the lines from zero, the header
    /// included; `column` counts the cells of that line from zero.
    Cell { line: usize, column: usize, kind: CellError },
}

/// What floating point makes of a cell that writes a decimal number.
#[derive(Clone, Copy, Debug, PartialEq, Eq, Structural)]
pub struct Decimal {
    /// A thousand times the number as a 64-bit float, rounded down to a whole
    /// number and brought into the range of `i64`.
    pub millis: i64,
    /// The bits of the number as a 32-bit float.
    pub single_bits: u32,
}

/// The action that a column name selects. Names are matched exactly and with
/// their case; a name that is not listed selects nothing.
pub open spec fn action_for(name: Seq<char>) -> Option<FieldAction> {
    if name == "status"@ || name == "Status"@ {
        Some(FieldAction::SetStatus)
    } else if name == "userID"@ || name == "rss_id"@ || name == "DEVICE_ID"@ {
        Some(FieldAction::SetUserId)
    } else if name == "timeInFile"@ {
        Some(FieldAction::SetTimeInFile)
    } else if name == "tStartMsec"@ || name == "tStart"@ {
        Some(FieldAction::SetQueryTime)
    } else if name == "startTime"@ || name == "start_ts"@ || name == "START"@ {
        Some(FieldAction::SetQueryTimeText)
    } else if name == "durationMsec"@ {
        Some(FieldAction::SetDuration)
    } else if name == "duration"@ {
        Some(FieldAction::SetDurationSeconds)
    } else if name == "stream_id"@ || name == "Stream_id"@ || name == "stream_name"@ || name
        == "name"@ || name == "STREAM_LABEL"@ {
        Some(FieldAction::SetStreamId)
    } else if name == "module_ref"@ {
        Some(FieldAction::SetProvider)
    } else if name == "period_id"@ || name == "id"@ {
        Some(FieldAction::SetEntryId)
    } else if name == "bitErrorRate"@ || name == "ber"@ {
        Some(FieldAction::SetBer)
    } else if name == "valid"@ {
        Some(FieldAction::SetValid)
    } else if name == "offset"@ {
        Some(FieldAction::SetOffset)
    } else if name == "offset_s"@ || name == "OFFSET"@ {
        Some(FieldAction::SetOffsetSeconds)
    } else if name == "endTime"@ || name == "stop_ts"@ || name == "END"@ {
        Some(FieldAction::SetEndTime)
    } else {
        None
    }
}

/// The action that a column name selects, if it selects one.
pub fn column_action(name: &str) -> (action: Option<FieldAction>)
    ensures
        action == action_for(name@),
{
    if text_eq(name, "status") || text_eq(name, "Status") {
        Some(FieldAction::SetStatus)
    } else if text_eq(name, "userID") || text_eq(name, "rss_id") || text_eq(name, "DEVICE_ID") {
        Some(FieldAction::SetUserId)
    } else if text_eq(name, "timeInFile") {
        Some(FieldAction::SetTimeInFile)
    } else if text_eq(name, "tStartMsec") || text_eq(name, "tStart") {
        Some(FieldAction::SetQueryTime)
    } else if text_eq(name, "startTime") || text_eq(name, "start_ts") || text_eq(name, "START") {
        Some(FieldAction::SetQueryTimeText)
    } else if text_eq(name, "durationMsec") {
        Some(FieldAction::SetDuration)
    } else if text_eq(name, "duration") {
        Some(FieldAction::SetDurationSeconds)
    } else if text_eq(name, "stream_id") || text_eq(name, "Stream_id") || text_eq(
        name,
        "stream_name",
    ) || text_eq(name, "name") || text_eq(name, "STREAM_LABEL") {
        Some(FieldAction::SetStreamId)
    } else if text_eq(name, "module_ref") {
        Some(FieldAction::SetProvider)
    } else if text_eq(name, "period_id") || text_eq(name, "id") {
        Some(FieldAction::SetEntryId)
    } else if text_eq(name, "bitErrorRate") || text_eq(name, "ber") {
        Some(FieldAction::SetBer)
    } else if text_eq(name, "valid") {
        Some(FieldAction::SetValid)
    } else if text_eq(name, "offset") {
        Some(FieldAction::SetOffset)
    } else if text_eq(name, "offset_s") || text_eq(name, "OFFSET") {
        Some(FieldAction::SetOffsetSeconds)
    } else if text_eq(name, "endTime") || text_eq(name, "stop_ts") || text_eq(name, "END") {
        Some(FieldAction::SetEndTime)
    } else {
        None
    }
}

/// The instant that a cell of milliseconds since the epoch gives.
pub open spec fn epoch_instant(value: Seq<char>) -> Result<int, CellError> {
    match decimal_i64(value) {
        None => Err(CellError::NotAnInteger),
        Some(millis) => if is_instant(millis as int) {
            Ok(millis as int)
        } else {
            Err(CellError::NoSuchInstant)
        },
    }
}

/// The instant that a cell with a date and time of day gives.
pub open spec fn datetime_instant(value: Seq<char>) -> Result<int, CellError> {
    match datetime_reading(value) {
        None => Err(CellError::NotADatetime),
        Some(reading) => if is_instant(reading_millis(reading)) {
            Ok(reading_millis(reading))
        } else {
            Err(CellError::NoSuchInstant)
        },
    }
}

/// The span that a cell of whole milliseconds gives.
pub open spec fn millis_span(value: Seq<char>) -> Result<int, CellError> {
    match decimal_i64(value) {
        None => Err(CellError::NotAnInteger),
        Some(millis) => if is_span(millis as int) {
            Ok(millis as int)
        } else {
            Err(CellError::NoSuchSpan)
        },
    }
}

/// The span that a cell of seconds gives, from what floating point made of it.
pub open spec fn seconds_span(reading: Option<Decimal>) -> Result<int, CellError> {
    match reading {
        None => Err(CellError::NotADecimal),
        Some(decimal) => if is_span(decimal.millis as int) {
            Ok(decimal.millis as int)
        } else {
            Err(CellError::NoSuchSpan)
        },
    }
}

/// An instant or the error in its place, with the instant in milliseconds.
pub open spec fn instant_of(outcome: Result<Timestamp, CellError>) -> Result<int, CellError> {
    match outcome {
        Ok(instant) => Ok(instant@),
        Err(kind) => Err(kind),
    }
}

/// A span or the error in its place, with the span in milliseconds.
pub open spec fn span_of(outcome: Result<Duration, CellError>) -> Result<int, CellError> {
    match outcome {
        Ok(span) => Ok(span@),
        Err(kind) => Err(kind),
    }
}

/// Reads an instant from milliseconds since the epoch.
pub fn parse_timestamp(value: &str) -> (parsed: Result<Timestamp, CellError>)
    ensures
        instant_of(parsed) == epoch_instant(value@),
{
    match parse_i64(value) {
        None => Err(CellError::NotAnInteger),
        Some(millis) => match Timestamp::from_millis(millis) {
            Some(instant) => Ok(instant),
            None => Err(CellError::NoSuchInstant),
        },
    }
}

/// Reads an instant from a date and time of day, `YYYY-MM-DD HH:MM:SS` with
/// an optional `.fff`, taken as UTC.
pub fn parse_datetime_str(value: &str) -> (parsed: Result<Timestamp, CellError>)
    ensures
        instant_of(parsed) == datetime_instant(value@),
{
    match read_datetime(value) {
        None => Err(CellError::NotADatetime),
        Some(reading) => match Timestamp::from_reading(reading) {
            Some(instant) => Ok(instant),
            None => Err(CellError::NoSuchInstant),
        },
    }
}

/// Reads a span from whole milliseconds.
pub fn duration_from_millis(value: &str) -> (parsed: Result<Duration, CellError>)
    ensures
        span_of(parsed) == millis_span(value@),
{
    match parse_i64(value) {
        None => Err(CellError::NotAnInteger),
        Some(millis) => match Duration::from_millis(millis) {
            Some(span) => Ok(span),
            None => Err(CellError::NoSuchSpan),
        },
    }
}

/// Makes a span of what floating point read from a cell of seconds.
pub fn duration_from_seconds(reading: Option<Decimal>) -> (parsed: Result<Duration, CellError>)
    ensures
        span_of(parsed) == seconds_span(reading),
{
    match reading {
        None => Err(CellError::NotADecimal),
        Some(decimal) => match Duration::from_millis(decimal.millis) {
            Some(span) => Ok(span),
            None => Err(CellError::NoSuchSpan),
        },
    }
}

/// Whether a cell calls the record valid.
pub open spec fn says_valid(value: Seq<char>) -> bool {
    value == "VALID"@ || value == "true"@ || value == "1"@
}

fn is_stream_name(stream: &Option<String>) -> (named: bool)
    ensures
        named == names_stream(text_of(*stream)),
{
    match stream {
        Some(id) => {
            let id = id.as_str();
            !id.is_empty() && !text_eq(id, "0") && !text_eq(id, "NO_DATA") && !text_eq(
                id,
                "NO_MATCH",
            ) && !text_eq(id, "NO_SOUND")
        },
        None => false,
    }
}

/// The status after a status cell: the one that the cell names, or the one
/// before where it names none.
pub open spec fn status_after(before: Status, value: Seq<char>) -> Status {
    match status_named(value) {
        Some(status) => status,
        None => before,
    }
}

/// Sets the status from a cell. A cell that names no status changes nothing.
pub fn set_status(period: &mut ViewingPeriod, value: &str)
    ensures
        final(period)@ == (PeriodView {
            status: status_after(old(period)@.status, value@),
            ..old(period)@
        }),
{
    match Status::from_str(value) {
        Ok(status) => {
            period.status = status;
        },
        Err(_) => {},
    }
}

/// A row in progress: the record as far as the columns read so far make it,
/// and what they noted for deriving the rest.
#[derive(Clone, Debug, PartialEq, Eq)]
pub struct PendingRow {
    pub period: ViewingPeriod,
    /// How far the query time is ahead of the time in the file, once a column
    /// has said so.
    pub offset: Option<Duration>,
    /// When the interval ends, once a column has said so.
    pub end_time: Option<Timestamp>,
    /// Whether a column of this row has set the query time.
    pub query_time_set: bool,
}

/// A row in progress as mathematics sees it.
pub ghost struct RowView {
    pub period: PeriodView,
    pub offset: Option<int>,
    pub end_time: Option<int>,
    pub query_time_set: bool,
}

impl View for PendingRow {
    type V = RowView;

    open spec fn view(&self) -> RowView {
        RowView {
            period: self.period@,
            offset: match self.offset {
                Some(span) => Some(span@),
                None => None,
            },
            end_time: match self.end_time {
                Some(instant) => Some(instant@),
                None => None,
            },
            query_time_set: self.query_time_set,
        }
    }
}

/// The row before its first column.
pub open spec fn blank_row() -> RowView {
    RowView { period: blank_period(), offset: None, end_time: None, query_time_set: false }
}

/// A row with another record in it.
pub open spec fn with_period(row: RowView, period: PeriodView) -> RowView {
    RowView { period, ..row }
}

/// The row after an action has taken a cleaned cell, before anything is
/// derived; or why the cell cannot be read.
pub open spec fn assigned(
    row: RowView,
    action: FieldAction,
    value: Seq<char>,
    reading: Option<Decimal>,
) -> Result<RowView, CellError> {
    let period = row.period;
    match action {
        FieldAction::SetStatus => Ok(
            with_period(row, PeriodView { status: status_after(period.status, value), ..period }),
        ),
        FieldAction::SetUserId => Ok(with_period(row, PeriodView { user_id: value, ..period })),
        FieldAction::SetTimeInFile => match epoch_instant(value) {
            Ok(instant) => Ok(with_period(row, PeriodView { time_in_file: instant, ..period })),
            Err(kind) => Err(kind),
        },
        FieldAction::SetQueryTime => match epoch_instant(value) {
            Ok(instant) => Ok(
                RowView {
                    period: PeriodView { query_time: instant, ..period },
                    query_time_set: true,
                    ..row
                },
            ),
            Err(kind) => Err(kind),
        },
        FieldAction::SetQueryTimeText => match datetime_instant(value) {
            Ok(instant) => Ok(
                RowView {
                    period: PeriodView { query_time: instant, ..period },
                    query_time_set: true,
                    ..row
                },
            ),
            Err(kind) => Err(kind),
        },
        FieldAction::SetDuration => match millis_span(value) {
            Ok(span) => Ok(with_period(row, PeriodView { duration: span, ..period })),
            Err(kind) => Err(kind),
        },
        FieldAction::SetDurationSeconds => match seconds_span(reading) {
            Ok(span) => Ok(with_period(row, PeriodView { duration: span, ..period })),
            Err(kind) => Err(kind),
        },
        FieldAction::SetStreamId => Ok(
            with_period(row, PeriodView { stream_id: Some(value), ..period }),
        ),
        FieldAction::SetProvider => Ok(
            with_period(row, PeriodView { provider: Some(value), ..period }),
        ),
        FieldAction::SetEntryId => Ok(
            with_period(row, PeriodView { entry_id: Some(value), ..period }),
        ),
        FieldAction::SetBer => match reading {
            Some(decimal) => Ok(
                with_period(row, PeriodView { ber_bits: decimal.single_bits, ..period }),
            ),
            None => Err(CellError::NotADecimal),
        },
        FieldAction::SetValid => Ok(
            with_period(row, PeriodView { valid: says_valid(value), ..period }),
        ),
        FieldAction::SetOffset => match millis_span(value) {
            Ok(span) => Ok(RowView { offset: Some(span), ..row }),
            Err(kind) => Err(kind),
        },
        FieldAction::SetOffsetSeconds => match seconds_span(reading) {
            Ok(span) => Ok(RowView { offset: Some(span), ..row }),
            Err(kind) => Err(kind),
        },
        FieldAction::SetEndTime => match datetime_instant(value) {
            Ok(instant) => Ok(RowView { end_time: Some(instant), ..row }),
            Err(kind) => Err(kind),
        },
    }
}

/// Whether the time in the file follows from query time and offset: an
/// offset has been noted and the query time has been set in this row.
pub open spec fn offset_applies(row: RowView) -> bool {
    row.offset is Some && row.query_time_set
}

/// Whether the duration follows from query time and end: an end has been
/// noted and the query time has been set in this row.
pub open spec fn end_applies(row: RowView) -> bool {
    row.end_time is Some && row.query_time_set
}

/// The row with its dependent fields derived:
/// the time in the file is the query time less the offset, where that applies;
/// the duration runs from the query time to the end, where that applies;
/// the status is a match where a stream is named.
/// A derived time in the file that is no instant ends the row.
pub open spec fn derived(row: RowView) -> Result<RowView, CellError> {
    let period = row.period;
    let time_in_file = if offset_applies(row) {
        period.query_time - row.offset->0
    } else {
        period.time_in_file
    };
    let duration = if end_applies(row) {
        row.end_time->0 - period.query_time
    } else {
        period.duration
    };
    let status = if names_stream(period.stream_id) {
        Status::Match
    } else {
        period.status
    };
    if offset_applies(row) && !is_instant(time_in_file) {
        Err(CellError::DerivedNoInstant)
    } else {
        Ok(with_period(row, PeriodView { time_in_file, duration, status, ..period }))
    }
}

/// The row after one column: the column's action, if its name selects one,
/// takes the cleaned cell; then the dependent fields are derived, whether or
/// not the name was known.
pub open spec fn applied(
    row: RowView,
    name: Seq<char>,
    raw: Seq<char>,
    reading: Option<Decimal>,
) -> Result<RowView, CellError> {
    match action_for(name) {
        Some(action) => match assigned(row, action, cleaned(raw), reading) {
            Ok(next) => derived(next),
            Err(kind) => Err(kind),
        },
        None => derived(row),
    }
}

/// What floating point made of the cell in a column; nothing where the caller
/// supplied no reading for it.
pub open spec fn reading_at(readings: Seq<Option<Decimal>>, column: int) -> Option<Decimal> {
    if 0 <= column < readings.len() {
        readings[column]
    } else {
        None
    }
}

/// The row after the columns from `from` on, taken in the header's order. Names
/// and fields pair up one to one; what either has beyond the other is left
/// out. The first cell that cannot be read ends the row.
pub open spec fn folded(
    row: RowView,
    header: Seq<Seq<char>>,
    fields: Seq<Seq<char>>,
    readings: Seq<Option<Decimal>>,
    from: int,
) -> Result<RowView, RowError>
    decreases header.len() - from,
{
    if 0 <= from < header.len() && from < fields.len() {
        match applied(row, header[from], fields[from], reading_at(readings, from)) {
            Ok(next) => folded(next, header, fields, readings, from + 1),
            Err(kind) => Err(RowError { column: from as usize, kind }),
        }
    } else {
        Ok(row)
    }
}

/// The period that the fields of one row give under a header.
pub open spec fn fields_period(
    header: Seq<Seq<char>>,
    fields: Seq<Seq<char>>,
    readings: Seq<Option<Decimal>>,
) -> Result<PeriodView, RowError> {
    match folded(blank_row(), header, fields, readings, 0) {
        Ok(row) => Ok(row.period),
        Err(error) => Err(error),
    }
}

/// The period that one line gives under a header.
pub open spec fn line_period(
    header: Seq<Seq<char>>,
    line: Seq<char>,
    separator: char,
    readings: Seq<Option<Decimal>>,
) -> Result<PeriodView, RowError> {
    fields_period(header, split(line, separator), readings)
}

/// A row or the error in its place, the row as mathematics sees it.
pub open spec fn row_of(outcome: Result<PendingRow, CellError>) -> Result<RowView, CellError> {
    match outcome {
        Ok(row) => Ok(row@),
        Err(kind) => Err(kind),
    }
}

/// A period or the error in its place, the period as mathematics sees it.
pub open spec fn period_of(outcome: Result<ViewingPeriod, RowError>) -> Result<
    PeriodView,
    RowError,
> {
    match outcome {
        Ok(period) => Ok(period@),
        Err(error) => Err(error),
    }
}

impl PendingRow {
    /// The row before its first column.
    pub fn new() -> (row: PendingRow)
        ensures
            row@ == blank_row(),
    {
        PendingRow {
            period: ViewingPeriod::default(),
            offset: None,
            end_time: None,
            query_time_set: false,
        }
    }

    /// Lets an action take a cleaned cell.
    pub fn assign(self, action: FieldAction, value: &str, reading: Option<Decimal>) -> (next:
        Result<PendingRow, CellError>)
        ensures
            row_of(next) == assigned(self@, action, value@, reading),
    {
        let mut row = self;
        match action {
            FieldAction::SetStatus => {
                set_status(&mut row.period, value);
            },
            FieldAction::SetUserId => {
                row.period.user_id = value.to_owned();
            },
            FieldAction::SetTimeInFile => {
                match parse_timestamp(value) {
                    Ok(instant) => {
                        row.period.time_in_file = instant;
                    },
                    Err(kind) => {
                        return Err(kind);
                    },
                }
            },
            FieldAction::SetQueryTime => {
                match parse_timestamp(value) {
                    Ok(instant) => {
                        row.period.query_time = instant;
                        row.query_time_set = true;
                    },
                    Err(kind) => {
                        return Err(kind);
                    },
                }
            },
            FieldAction::SetQueryTimeText => {
                match parse_datetime_str(value) {
                    Ok(instant) => {
                        row.period.query_time = instant;
                        row.query_time_set = true;
                    },
                    Err(kind) => {
                        return Err(kind);
                    },
                }
            },
            FieldAction::SetDuration => {
                match duration_from_millis(value) {
                    Ok(span) => {
                        row.period.duration = span;
                    },
                    Err(kind) => {
                        return Err(kind);
                    },
                }
            },
            FieldAction::SetDurationSeconds => {
                match duration_from_seconds(reading) {
                    Ok(span) => {
                        row.period.duration = span;
                    },
                    Err(kind) => {
                        return Err(kind);
                    },
                }
            },
            FieldAction::SetStreamId => {
                row.period.stream_id = Some(value.to_owned());
            },
            FieldAction::SetProvider => {
                row.period.provider = Some(value.to_owned());
            },
            FieldAction::SetEntryId => {
                row.period.entry_id = Some(value.to_owned());
            },
            FieldAction::SetBer => {
                match reading {
                    Some(decimal) => {
                        row.period.ber_bits = decimal.single_bits;
                    },
                    None => {
                        return Err(CellError::NotADecimal);
                    },
                }
            },
            FieldAction::SetValid => {
                row.period.valid = text_eq(value, "VALID") || text_eq(value, "true") || text_eq(
                    value,
                    "1",
                );
            },
            FieldAction::SetOffset => {
                match duration_from_millis(value) {
                    Ok(span) => {
                        row.offset = Some(span);
                    },
                    Err(kind) => {
                        return Err(kind);
                    },
                }
            },
            FieldAction::SetOffsetSeconds => {
                match duration_from_seconds(reading) {
                    Ok(span) => {
                        row.offset = Some(span);
                    },
                    Err(kind) => {
                        return Err(kind);
                    },
                }
            },
            FieldAction::SetEndTime => {
                match parse_datetime_str(value) {
                    Ok(instant) => {
                        row.end_time = Some(instant);
                    },
                    Err(kind) => {
                        return Err(kind);
                    },
                }
            },
        }
        Ok(row)
    }

    /// Derives the dependent fields from what the row holds.
    pub fn derive(self) -> (next: Result<PendingRow, CellError>)
        ensures
            row_of(next) == derived(self@),
    {
        let mut row = self;
        if row.query_time_set {
            if let Some(offset) = row.offset {
                match row.period.query_time.checked_sub(offset) {
                    Some(instant) => {
                        row.period.time_in_file = instant;
                    },
                    None => {
                        return Err(CellError::DerivedNoInstant);
                    },
                }
            }
            if let Some(end) = row.end_time {
                row.period.duration = end.since(row.period.query_time);
            }
        }
        if is_stream_name(&row.period.stream_id) {
            row.period.status = Status::Match;
        }
        Ok(row)
    }

    /// Takes one column: its action, if the name selects one, on the cleaned
    /// cell; then the dependent fields anew.
    pub fn apply(self, name: &str, raw: &str, reading: Option<Decimal>) -> (next: Result<
        PendingRow,
        CellError,
    >)
        ensures
            row_of(next) == applied(self@, name@, raw@, reading),
    {
        match column_action(name) {
            Some(action) => match self.assign(action, clean_cell(raw), reading) {
                Ok(row) => row.derive(),
                Err(kind) => Err(kind),
            },
            None => self.derive(),
        }
    }
}

/// The column names of a header line, as they stand between the separators.
pub fn parse_header<'a>(line: &'a str, delimiter: char) -> (header: Vec<&'a str>)
    ensures
        texts(header@) == split(line@, delimiter),
{
    split_fields(line, delimiter)
}

/// Normalises the fields of one row under a header. `readings` holds, for
/// each field in turn, what floating point made of the cleaned cell.
pub fn fields_to_period(
    header: &Vec<&str>,
    fields: &Vec<&str>,
    readings: &Vec<Option<Decimal>>,
) -> (period: Result<ViewingPeriod, RowError>)
    ensures
        period_of(period) == fields_period(texts(header@), texts(fields@), readings@),
        period matches Ok(p) ==> p@.well_formed(),
{
    let mut row = PendingRow::new();
    let mut column: usize = 0;
    while column < header.len() && column < fields.len()
        invariant
            column <= header.len(),
            column <= fields.len(),
            row@.period.well_formed(),
            folded(blank_row(), texts(header@), texts(fields@), readings@, 0) == folded(
                row@,
                texts(header@),
                texts(fields@),
                readings@,
                column as int,
            ),
        decreases header.len() - column,
    {
        let reading: Option<Decimal> = if column < readings.len() {
            readings[column]
        } else {
            None
        };
        match row.apply(header[column], fields[column], reading) {
            Ok(next) => {
                row = next;
            },
            Err(kind) => {
                return Err(RowError { column, kind });
            },
        }
        column += 1;
    }
    Ok(row.period)
}

/// Normalises one line under a header. `readings` holds, for each cell of the
/// line in turn, what floating point made of the cleaned cell.
pub fn line_to_period(
    line: &str,
    header: &Vec<&str>,
    separator: char,
    readings: &Vec<Option<Decimal>>,
) -> (period: Result<ViewingPeriod, RowError>)
    ensures
        period_of(period) == line_period(texts(header@), line@, separator, readings@),
        period matches Ok(p) ==> p@.well_formed(),
{
    let fields = split_fields(line, separator);
    fields_to_period(header, &fields, readings)
}

/// The readings that belong to a line; none where the caller supplied none
/// for it.
pub open spec fn readings_at(readings: Seq<Vec<Option<Decimal>>>, line: int) -> Seq<
    Option<Decimal>,
> {
    if 0 <= line < readings.len() {
        readings[line]@
    } else {
        Seq::empty()
    }
}

/// The period that a line of a table gives: the first line names the columns.
pub open spec fn table_period(
    lines: Seq<String>,
    separator: char,
    readings: Seq<Vec<Option<Decimal>>>,
    line: int,
) -> Result<PeriodView, RowError> {
    line_period(split(lines[0]@, separator), lines[line]@, separator, readings_at(readings, line))
}

/// Whether a table is read to its end: it has a header, and every line after
/// it gives a period.
pub open spec fn table_reads(
    lines: Seq<String>,
    separator: char,
    readings: Seq<Vec<Option<Decimal>>>,
) -> bool {
    lines.len() > 0 && forall|i: int|
        0 < i < lines.len() ==> (#[trigger] table_period(lines, separator, readings, i)) is Ok
}

/// Normalises a table: the first line names the columns, and every line after
/// it gives one period, in order. `readings[i]` holds, for each cell of
/// `lines[i]` in turn, what floating point made of the cleaned cell; the
/// header's entry is not looked at.
///
/// The first cell that cannot be read ends the run: no period is handed out,
/// and the error says where the cell stands.
pub fn read_periods(
    lines: &Vec<String>,
    separator: char,
    readings: &Vec<Vec<Option<Decimal>>>,
) -> (periods: Result<Vec<ViewingPeriod>, ReadError>)
    ensures
        periods is Ok <==> table_reads(lines@, separator, readings@),
        match periods {
            Ok(periods) => {
                &&& lines.len() == periods.len() + 1
                &&& forall|i: int|
                    0 <= i < periods.len() ==> table_period(lines@, separator, readings@, i + 1)
                        == Ok::<PeriodView, RowError>(#[trigger] periods[i]@)
                &&& forall|i: int| 0 <= i < periods.len() ==> (#[trigger] periods[i]@).well_formed()
            },
            Err(ReadError::MissingHeader) => lines.len() == 0,
            Err(ReadError::Cell { line, column, kind }) => {
                &&& 0 < line < lines.len()
                &&& table_period(lines@, separator, readings@, line as int) == Err::<
                    PeriodView,
                    RowError,
                >(RowError { column, kind })
                &&& forall|i: int|
                    0 < i < line ==> (#[trigger] table_period(
                        lines@,
                        separator,
                        readings@,
                        i,
                    )) is Ok
            },
        },
{
    if lines.len() == 0 {
        return Err(ReadError::MissingHeader);
    }
    let header = parse_header(lines[0].as_str(), separator);
    let none: Vec<Option<Decimal>> = Vec::new();
    let mut periods: Vec<ViewingPeriod> = Vec::new();
    let mut line: usize = 1;
    while line < lines.len()
        invariant
            1 <= line <= lines.len(),
            none@ == Seq::<Option<Decimal>>::empty(),
            texts(header@) == split(lines[0]@, separator),
            periods.len() + 1 == line,
            forall|i: int|
                0 <= i < periods.len() ==> table_period(lines@, separator, readings@, i + 1)
                    == Ok::<PeriodView, RowError>(#[trigger] periods[i]@),
            forall|i: int| 0 <= i < periods.len() ==> (#[trigger] periods[i]@).well_formed(),
        decreases lines.len() - line,
    {
        let row_readings: &Vec<Option<Decimal>> = if line < readings.len() {
            &readings[line]
        } else {
            &none
        };
        match line_to_period(lines[line].as_str(), &header, separator, row_readings) {
            Ok(period) => {
                periods.push(period);
            },
            Err(error) => {
                assert forall|i: int| 0 < i < line implies (#[trigger] table_period(
                    lines@,
                    separator,
                    readings@,
                    i,
                )) is Ok by {
                    assert(table_period(lines@, separator, readings@, (i - 1) + 1)
                        == Ok::<PeriodView, RowError>(periods[i - 1]@));
                }
                return Err(ReadError::Cell { line, column: error.column, kind: error.kind });
            },
        }
        line += 1;
    }
    assert forall|i: int| 0 < i < lines.len() implies (#[trigger] table_period(
        lines@,
        separator,
        readings@,
        i,
    )) is Ok by {
        assert(table_period(lines@, separator, readings@, (i - 1) + 1) == Ok::<
            PeriodView,
            RowError,
        >(periods[i - 1]@));
    }
    Ok(periods)
}

/// The extension that `std::path::Path` finds in a path: what follows the
/// last point of the final component, if that component has a point past its
/// first character.
pub uninterp spec fn path_extension(path: Seq<char>) -> Option<Seq<char>>;

/// The characters of a string slice that may be absent.
pub open spec fn slice_text(slice: Option<&str>) -> Option<Seq<char>> {
    match slice {
        Some(s) => Some(s@),
        None => None,
    }
}

/// The extension of a path.
///
/// Trusted: calls `std::path::Path::extension` on the path and hands the
/// extension out as text. The contract claims only that the outcome depends
/// on the path's text alone.
#[verifier::external_body]
fn extension_of(path: &str) -> (extension: Option<&str>)
    ensures
        slice_text(extension) == path_extension(path@),
{
    match Path::new(path).extension() {
        Some(extension) => extension.to_str(),
        None => None,
    }
}

/// The separator that goes with an extension: a comma with `csv`, a tab with
/// `tsv`, in exactly this case, and none with anything else.
pub open spec fn extension_separator(extension: Option<Seq<char>>) -> Option<char> {
    match extension {
        Some(text) => if text == "csv"@ {
            Some(',')
        } else if text == "tsv"@ {
            Some('\t')
        } else {
            None
        },
        None => None,
    }
}

/// The separator that goes with a file extension; `None` where the extension
/// is missing or not supported.
pub fn separator_for(extension: Option<&str>) -> (separator: Option<char>)
    ensures
        separator == extension_separator(slice_text(extension)),
{
    match extension {
        Some(text) => if text_eq(text, "csv") {
            Some(',')
        } else if text_eq(text, "tsv") {
            Some('\t')
        } else {
            None
        },
        None => None,
    }
}

/// The separator of the fields in a file, from the extension in its path
/// alone; `None` where the extension is missing or not supported.
pub fn separator(path: &str) -> (separator: Option<char>)
    ensures
        separator == extension_separator(path_extension(path@)),
{
    separator_for(extension_of(path))
}

} // verus!
