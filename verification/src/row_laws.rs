//! What holds of every cell, row and table, whatever the columns are.

use vstd::prelude::*;
use crate::number::{decimal_i64, decimal_value};
use crate::text::{cleaned, split};
use crate::time::{datetime_reading, Timestamp};
use crate::tsv_reader::{
    action_for, applied, assigned, blank_row, datetime_instant, derived, epoch_instant,
    fields_period, folded, reading_at, readings_at, table_period, table_reads, CellError,
    Decimal, FieldAction, RowError, RowView,
};
use crate::viewingperiod::{names_stream, Status};

verus! {

/// An instant read from a cell of milliseconds since the epoch is that many
/// milliseconds from the epoch: counting them gives back the number that the
/// cell writes.
pub proof fn lemma_epoch_millis_round_trip(value: Seq<char>, instant: Timestamp)
    requires
        epoch_instant(value) == Ok::<int, CellError>(instant@),
    ensures
        decimal_value(value) == Some(instant@),
{
}

/// The milliseconds past the whole second of an instant read from a date and
/// time of day are the nanoseconds that were read past the second, cut to
/// whole milliseconds. (A leap second is read with a thousand million
/// nanoseconds more, which make a whole second.)
pub proof fn lemma_datetime_subsecond(value: Seq<char>, instant: Timestamp)
    requires
        datetime_instant(value) == Ok::<int, CellError>(instant@),
    ensures
        match datetime_reading(value) {
            Some(reading) => instant@ % 1000 == (reading.1 / 1_000_000) % 1000,
            None => false,
        },
{
}

/// Whether a row is at rest: deriving its dependent fields changes nothing.
pub open spec fn settled(row: RowView) -> bool {
    derived(row) == Ok::<RowView, CellError>(row)
}

/// Deriving the dependent fields twice is deriving them once.
pub proof fn lemma_derived_is_settled(row: RowView)
    ensures
        derived(row) matches Ok(next) ==> settled(next),
{
}

/// Between two columns a row is at rest.
pub proof fn lemma_applied_is_settled(
    row: RowView,
    name: Seq<char>,
    raw: Seq<char>,
    reading: Option<Decimal>,
)
    ensures
        applied(row, name, raw, reading) matches Ok(next) ==> settled(next),
{
    match action_for(name) {
        Some(action) => {
            match assigned(row, action, cleaned(raw), reading) {
                Ok(next) => lemma_derived_is_settled(next),
                Err(_) => {},
            }
        },
        None => lemma_derived_is_settled(row),
    }
}

/// A row that names a stream is a match after every column.
pub proof fn lemma_applied_stream_is_match(
    row: RowView,
    name: Seq<char>,
    raw: Seq<char>,
    reading: Option<Decimal>,
)
    ensures
        applied(row, name, raw, reading) matches Ok(next) ==> (names_stream(next.period.stream_id)
            ==> next.period.status == Status::Match),
{
}

/// A column whose name selects no action leaves a row at rest as it was,
/// whatever its cell holds.
pub proof fn lemma_unknown_column_changes_nothing(
    row: RowView,
    name: Seq<char>,
    raw: Seq<char>,
    reading: Option<Decimal>,
)
    requires
        action_for(name) is None,
        settled(row),
    ensures
        applied(row, name, raw, reading) == Ok::<RowView, CellError>(row),
{
}

/// Whether no column from `from` on sets the status.
pub open spec fn no_status_from(header: Seq<Seq<char>>, from: int) -> bool {
    forall|later: int|
        from <= later < header.len() ==> action_for(#[trigger] header[later]) != Some(
            FieldAction::SetStatus,
        )
}

proof fn lemma_match_stays(
    row: RowView,
    header: Seq<Seq<char>>,
    fields: Seq<Seq<char>>,
    readings: Seq<Option<Decimal>>,
    from: int,
)
    requires
        0 <= from,
        row.period.status == Status::Match,
        no_status_from(header, from),
    ensures
        folded(row, header, fields, readings, from) matches Ok(last) ==> last.period.status
            == Status::Match,
    decreases header.len() - from,
{
    if from < header.len() && from < fields.len() {
        assert(action_for(header[from]) != Some(FieldAction::SetStatus));
        match applied(row, header[from], fields[from], reading_at(readings, from)) {
            Ok(next) => lemma_match_stays(next, header, fields, readings, from + 1),
            Err(_) => {},
        }
    }
}

proof fn lemma_stream_column_from(
    row: RowView,
    header: Seq<Seq<char>>,
    fields: Seq<Seq<char>>,
    readings: Seq<Option<Decimal>>,
    column: int,
    from: int,
)
    requires
        0 <= from <= column < header.len(),
        column < fields.len(),
        action_for(header[column]) == Some(FieldAction::SetStreamId),
        names_stream(Some(cleaned(fields[column]))),
        no_status_from(header, column + 1),
    ensures
        folded(row, header, fields, readings, from) matches Ok(last) ==> last.period.status
            == Status::Match,
    decreases column - from,
{
    match applied(row, header[from], fields[from], reading_at(readings, from)) {
        Ok(next) => {
            if from == column {
                lemma_match_stays(next, header, fields, readings, column + 1);
            } else {
                lemma_stream_column_from(next, header, fields, readings, column, from + 1);
            }
        },
        Err(_) => {},
    }
}

/// A row with a stream column whose cell names a stream is a match, whatever
/// an earlier status column said, as long as no status column comes after
/// the stream column.
pub proof fn lemma_stream_column_gives_match(
    header: Seq<Seq<char>>,
    fields: Seq<Seq<char>>,
    readings: Seq<Option<Decimal>>,
    column: int,
)
    requires
        0 <= column < header.len(),
        column < fields.len(),
        action_for(header[column]) == Some(FieldAction::SetStreamId),
        names_stream(Some(cleaned(fields[column]))),
        no_status_from(header, column + 1),
    ensures
        fields_period(header, fields, readings) matches Ok(period) ==> period.status
            == Status::Match,
{
    lemma_stream_column_from(blank_row(), header, fields, readings, column, 0);
}

proof fn lemma_stream_is_match_from(
    row: RowView,
    header: Seq<Seq<char>>,
    fields: Seq<Seq<char>>,
    readings: Seq<Option<Decimal>>,
    from: int,
)
    requires
        0 <= from,
        names_stream(row.period.stream_id) ==> row.period.status == Status::Match,
    ensures
        folded(row, header, fields, readings, from) matches Ok(last) ==> (names_stream(
            last.period.stream_id,
        ) ==> last.period.status == Status::Match),
    decreases header.len() - from,
{
    if from < header.len() && from < fields.len() {
        match applied(row, header[from], fields[from], reading_at(readings, from)) {
            Ok(next) => {
                lemma_applied_stream_is_match(
                    row,
                    header[from],
                    fields[from],
                    reading_at(readings, from),
                );
                lemma_stream_is_match_from(next, header, fields, readings, from + 1);
            },
            Err(_) => {},
        }
    }
}

/// Every period that a row gives is a match if it names a stream.
pub proof fn lemma_named_stream_is_match(
    header: Seq<Seq<char>>,
    fields: Seq<Seq<char>>,
    readings: Seq<Option<Decimal>>,
)
    ensures
        fields_period(header, fields, readings) matches Ok(period) ==> period.well_formed(),
{
    lemma_stream_is_match_from(blank_row(), header, fields, readings, 0);
}

/// Whether a column reads its cell as milliseconds since the epoch.
pub open spec fn reads_epoch_millis(name: Seq<char>) -> bool {
    action_for(name) == Some(FieldAction::SetTimeInFile) || action_for(name) == Some(
        FieldAction::SetQueryTime,
    )
}

proof fn lemma_bad_epoch_cell_from(
    row: RowView,
    header: Seq<Seq<char>>,
    fields: Seq<Seq<char>>,
    readings: Seq<Option<Decimal>>,
    column: int,
    from: int,
)
    requires
        0 <= from <= column < header.len(),
        column < fields.len(),
        reads_epoch_millis(header[column]),
        decimal_i64(cleaned(fields[column])) is None,
    ensures
        folded(row, header, fields, readings, from) is Err,
    decreases column - from,
{
    match applied(row, header[from], fields[from], reading_at(readings, from)) {
        Ok(next) => {
            if from < column {
                lemma_bad_epoch_cell_from(next, header, fields, readings, column, from + 1);
            }
        },
        Err(_) => {},
    }
}

/// A row with a cell that is no integer, in a column of milliseconds since
/// the epoch, gives no period.
pub proof fn lemma_bad_epoch_cell_ends_row(
    header: Seq<Seq<char>>,
    fields: Seq<Seq<char>>,
    readings: Seq<Option<Decimal>>,
    column: int,
)
    requires
        0 <= column < header.len(),
        column < fields.len(),
        reads_epoch_millis(header[column]),
        decimal_i64(cleaned(fields[column])) is None,
    ensures
        fields_period(header, fields, readings) is Err,
{
    lemma_bad_epoch_cell_from(blank_row(), header, fields, readings, column, 0);
}

/// A table with such a cell on any of its lines is not read to its end: it
/// gives no periods at all, not those of the lines before either.
pub proof fn lemma_bad_epoch_cell_ends_table(
    lines: Seq<String>,
    separator: char,
    readings: Seq<Vec<Option<Decimal>>>,
    line: int,
    column: int,
)
    requires
        0 < line < lines.len(),
        0 <= column < split(lines[0]@, separator).len(),
        column < split(lines[line]@, separator).len(),
        reads_epoch_millis(split(lines[0]@, separator)[column]),
        decimal_i64(cleaned(split(lines[line]@, separator)[column])) is None,
    ensures
        !table_reads(lines, separator, readings),
{
    lemma_bad_epoch_cell_ends_row(
        split(lines[0]@, separator),
        split(lines[line]@, separator),
        readings_at(readings, line),
        column,
    );
    assert(table_period(lines, separator, readings, line) is Err);
}

/// The readings of a row without those of one column.
pub open spec fn without(readings: Seq<Option<Decimal>>, column: int) -> Seq<Option<Decimal>> {
    if 0 <= column < readings.len() {
        readings.remove(column)
    } else {
        readings
    }
}

/// The outcome of a row as it is told once a column has been taken out: a
/// cell that stood after that column stands one place earlier.
pub open spec fn moved_up<T>(outcome: Result<T, RowError>, column: int) -> Result<T, RowError> {
    match outcome {
        Ok(row) => Ok(row),
        Err(error) => Err(
            RowError {
                column: if error.column > column {
                    (error.column - 1) as usize
                } else {
                    error.column
                },
                kind: error.kind,
            },
        ),
    }
}

proof fn lemma_skipped_after(
    row: RowView,
    header: Seq<Seq<char>>,
    fields: Seq<Seq<char>>,
    readings: Seq<Option<Decimal>>,
    column: int,
    from: int,
)
    requires
        0 <= column <= from,
        column < header.len() <= usize::MAX,
        column < fields.len(),
    ensures
        folded(
            row,
            header.remove(column),
            fields.remove(column),
            without(readings, column),
            from,
        ) == moved_up(folded(row, header, fields, readings, from + 1), column),
    decreases header.len() - from,
{
    let short_header = header.remove(column);
    let short_fields = fields.remove(column);
    let short_readings = without(readings, column);
    if from + 1 < header.len() && from + 1 < fields.len() {
        assert(short_header[from] == header[from + 1]);
        assert(short_fields[from] == fields[from + 1]);
        assert(reading_at(short_readings, from) == reading_at(readings, from + 1));
        match applied(row, header[from + 1], fields[from + 1], reading_at(readings, from + 1)) {
            Ok(next) => lemma_skipped_after(next, header, fields, readings, column, from + 1),
            Err(_) => {},
        }
    }
}

proof fn lemma_skipped_before(
    row: RowView,
    header: Seq<Seq<char>>,
    fields: Seq<Seq<char>>,
    readings: Seq<Option<Decimal>>,
    column: int,
    from: int,
)
    requires
        0 <= from <= column,
        column < header.len() <= usize::MAX,
        column < fields.len(),
        action_for(header[column]) is None,
        settled(row),
    ensures
        folded(
            row,
            header.remove(column),
            fields.remove(column),
            without(readings, column),
            from,
        ) == moved_up(folded(row, header, fields, readings, from), column),
    decreases column - from,
{
    let short_header = header.remove(column);
    let short_fields = fields.remove(column);
    let short_readings = without(readings, column);
    if from == column {
        lemma_unknown_column_changes_nothing(
            row,
            header[column],
            fields[column],
            reading_at(readings, column),
        );
        lemma_skipped_after(row, header, fields, readings, column, column);
    } else {
        assert(short_header[from] == header[from]);
        assert(short_fields[from] == fields[from]);
        assert(reading_at(short_readings, from) == reading_at(readings, from));
        lemma_applied_is_settled(row, header[from], fields[from], reading_at(readings, from));
        match applied(row, header[from], fields[from], reading_at(readings, from)) {
            Ok(next) => lemma_skipped_before(next, header, fields, readings, column, from + 1),
            Err(_) => {},
        }
    }
}

/// A column whose name selects no action does not stand in the way of the
/// others: the row gives what it gives without that column and its cell.
pub proof fn lemma_unknown_column_is_skipped(
    header: Seq<Seq<char>>,
    fields: Seq<Seq<char>>,
    readings: Seq<Option<Decimal>>,
    column: int,
)
    requires
        0 <= column < header.len() <= usize::MAX,
        column < fields.len(),
        action_for(header[column]) is None,
    ensures
        fields_period(header.remove(column), fields.remove(column), without(readings, column))
            == moved_up(fields_period(header, fields, readings), column),
{
    lemma_skipped_before(blank_row(), header, fields, readings, column, 0);
}

} // verus!
