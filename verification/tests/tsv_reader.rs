use analysis::text::row_cells;
use analysis::time::{Duration, Timestamp, MAX_EPOCH_MILLIS, MIN_EPOCH_MILLIS};
use analysis::tsv_reader::{
    column_action, duration_from_millis, duration_from_seconds, fields_to_period, line_to_period,
    parse_datetime_str, parse_header, parse_timestamp, read_periods, separator, separator_for,
    set_status, CellError, Decimal, FieldAction, PendingRow, ReadError, RowError,
};
use analysis::viewingperiod::{Status, ViewingPeriod};
use chrono::{DateTime, TimeZone, Timelike, Utc};

/// What floating point makes of a cell.
fn reading(cell: &str) -> Option<Decimal> {
    let seconds = cell.parse::<f64>().ok()?;
    let single = cell.parse::<f32>().ok()?;
    Some(Decimal { millis: (seconds * 1000.0).floor() as i64, single_bits: single.to_bits() })
}

fn readings_of(line: &str, sep: char) -> Vec<Option<Decimal>> {
    row_cells(line, sep).iter().map(|cell| reading(cell)).collect()
}

fn table_readings(lines: &[String], sep: char) -> Vec<Vec<Option<Decimal>>> {
    lines.iter().map(|line| readings_of(line, sep)).collect()
}

fn lines_of(text: &str) -> Vec<String> {
    text.lines().map(|line| line.to_string()).collect()
}

fn instant(datetime: DateTime<Utc>) -> Timestamp {
    Timestamp::from_millis(datetime.timestamp_millis()).unwrap()
}

fn at(millis: i64) -> Timestamp {
    Timestamp::from_millis(millis).unwrap()
}

fn span(millis: i64) -> Duration {
    Duration::from_millis(millis).unwrap()
}

/// One row under a comma-separated header.
fn row(header: &str, line: &str) -> Result<ViewingPeriod, RowError> {
    let header = parse_header(header, ',');
    line_to_period(line, &header, ',', &readings_of(line, ','))
}

#[test]
fn test_parse_timestamp() {
    let millis: i64 = 1_673_531_400_000;
    let datetime = Utc.with_ymd_and_hms(2023, 1, 12, 13, 50, 0).unwrap();

    assert_eq!(parse_timestamp(millis.to_string().as_str()), Ok(instant(datetime)));
}

#[test]
fn test_parse_time() {
    let string = "2023-01-12 13:50:00.123";
    let datetime = Utc
        .with_ymd_and_hms(2023, 1, 12, 13, 50, 0)
        .unwrap()
        .with_nanosecond(123_000_000)
        .unwrap();

    assert_eq!(parse_datetime_str(string), Ok(instant(datetime)));
}

#[test]
fn test_parse_match() {
    let header = "id,status,period_id,stream_id,timeInFile,tStartMsec,tEndMsec,durationMsec,bitErrorRate,nMatches,userID,valid,created,client_query_id,published_ts";
    let period_line = "5262783672,0,1672616922000|8d542b02585730ca24c2b96845ef9566|329,329,1672617736352,1672617824041,1672617836969,12928,0.247597,2,169808,1,2023-01-02 04:43:05,156521803,1672641842709";

    let entire_file = format!("{}\n{}", header, period_line);
    println!("{}", entire_file);

    let expected_period = ViewingPeriod {
        provider: None,
        status: Status::Match,
        user_id: "169808".to_string(),
        query_time: instant(
            Utc.with_ymd_and_hms(2023, 1, 2, 0, 3, 44).unwrap() + chrono::Duration::milliseconds(41),
        ),
        time_in_file: instant(
            Utc.with_ymd_and_hms(2023, 1, 2, 0, 2, 16).unwrap()
                + chrono::Duration::milliseconds(352),
        ),
        duration: span(chrono::Duration::milliseconds(12928).num_milliseconds()),
        stream_id: Some("329".to_string()),
        entry_id: Some("1672616922000|8d542b02585730ca24c2b96845ef9566|329".to_string()),
        ber_bits: (0.247597 as f32).to_bits(),
        valid: true,
    };

    let lines = lines_of(&entire_file);
    let all_periods = read_periods(&lines, ',', &table_readings(&lines, ',')).unwrap();
    assert_eq!(all_periods.len(), 1);

    let parsed_period = all_periods.first().expect("expected at least one period to be read");

    assert_eq!(&expected_period, parsed_period);
}

#[test]
fn match_row_has_the_times_of_its_columns() {
    let header = "id,status,period_id,stream_id,timeInFile,tStartMsec,tEndMsec,durationMsec,bitErrorRate,nMatches,userID,valid,created,client_query_id,published_ts";
    let line = "5262783672,0,1672616922000|8d542b02585730ca24c2b96845ef9566|329,329,1672617736352,1672617824041,1672617836969,12928,0.247597,2,169808,1,2023-01-02 04:43:05,156521803,1672641842709";
    let period = row(header, line).unwrap();
    assert_eq!(period.query_time.timestamp_millis(), 1672617824041);
    assert_eq!(period.time_in_file.timestamp_millis(), 1672617736352);
    assert_eq!(period.duration.num_milliseconds(), 12928);
    assert!((f32::from_bits(period.ber_bits) - 0.247597).abs() < 1e-6);
    assert_eq!(period.offset().num_milliseconds(), 87689);
    assert_eq!(period.end_time().timestamp_millis(), 1672617836969);
}

#[test]
fn separator_goes_by_the_extension() {
    assert_eq!(separator("periods.csv"), Some(','));
    assert_eq!(separator("periods.tsv"), Some('\t'));
    assert_eq!(separator("/var/data/2023.01/periods.tsv"), Some('\t'));
    assert_eq!(separator("csv"), None);
    assert_eq!(separator("periods"), None);
    assert_eq!(separator(""), None);
    assert_eq!(separator(".csv"), None);
    assert_eq!(separator("periods.csv.gz"), None);
    assert_eq!(separator("export.csv/periods"), None);
}

#[test]
fn txt_extension_is_not_supported() {
    assert_eq!(separator("periods.txt"), None);
    assert_eq!(separator_for(Some("txt")), None);
}

#[test]
fn extension_is_matched_with_its_case() {
    assert_eq!(separator("periods.CSV"), None);
    assert_eq!(separator("periods.Tsv"), None);
    assert_eq!(separator_for(Some("csv")), Some(','));
    assert_eq!(separator_for(Some("tsv")), Some('\t'));
    assert_eq!(separator_for(Some("CSV")), None);
    assert_eq!(separator_for(Some("")), None);
    assert_eq!(separator_for(None), None);
}

#[test]
fn header_names_are_not_trimmed() {
    assert_eq!(parse_header(" id ,status,,name ", ','), vec![" id ", "status", "", "name "]);
    assert_eq!(parse_header("a\tb c\t", '\t'), vec!["a", "b c", ""]);
    assert_eq!(parse_header("", ','), vec![""]);
    assert_eq!(column_action(" id "), None);
}

#[test]
fn every_alias_selects_its_action() {
    let table: Vec<(&str, FieldAction)> = vec![
        ("status", FieldAction::SetStatus),
        ("Status", FieldAction::SetStatus),
        ("userID", FieldAction::SetUserId),
        ("rss_id", FieldAction::SetUserId),
        ("DEVICE_ID", FieldAction::SetUserId),
        ("timeInFile", FieldAction::SetTimeInFile),
        ("tStartMsec", FieldAction::SetQueryTime),
        ("tStart", FieldAction::SetQueryTime),
        ("startTime", FieldAction::SetQueryTimeText),
        ("start_ts", FieldAction::SetQueryTimeText),
        ("START", FieldAction::SetQueryTimeText),
        ("durationMsec", FieldAction::SetDuration),
        ("duration", FieldAction::SetDurationSeconds),
        ("stream_id", FieldAction::SetStreamId),
        ("Stream_id", FieldAction::SetStreamId),
        ("stream_name", FieldAction::SetStreamId),
        ("name", FieldAction::SetStreamId),
        ("STREAM_LABEL", FieldAction::SetStreamId),
        ("module_ref", FieldAction::SetProvider),
        ("period_id", FieldAction::SetEntryId),
        ("id", FieldAction::SetEntryId),
        ("bitErrorRate", FieldAction::SetBer),
        ("ber", FieldAction::SetBer),
        ("valid", FieldAction::SetValid),
        ("offset", FieldAction::SetOffset),
        ("offset_s", FieldAction::SetOffsetSeconds),
        ("OFFSET", FieldAction::SetOffsetSeconds),
        ("endTime", FieldAction::SetEndTime),
        ("stop_ts", FieldAction::SetEndTime),
        ("END", FieldAction::SetEndTime),
    ];
    for (name, action) in table {
        assert_eq!(column_action(name), Some(action), "{}", name);
    }
}

#[test]
fn other_names_select_nothing() {
    for name in ["", "STATUS", "userId", "tEndMsec", "nMatches", "created", "Offset", "end", "status "] {
        assert_eq!(column_action(name), None, "{}", name);
    }
}

#[test]
fn epoch_millis_round_trip() {
    for millis in [0i64, 1, -1, 999, -999, 1_673_531_400_000, -62_135_596_800_000, MIN_EPOCH_MILLIS, MAX_EPOCH_MILLIS] {
        let parsed = parse_timestamp(&millis.to_string()).unwrap();
        assert_eq!(parsed.timestamp_millis(), millis);
    }
    assert_eq!(parse_timestamp("+0042").unwrap().timestamp_millis(), 42);
}

#[test]
fn epoch_millis_must_be_an_integer() {
    for cell in ["", "abc", "12.5", "1 2", " 12", "12 ", "1e3", "-", "+", "0x10", "9223372036854775808"] {
        assert_eq!(parse_timestamp(cell), Err(CellError::NotAnInteger), "{:?}", cell);
    }
}

#[test]
fn epoch_millis_must_be_an_instant() {
    assert_eq!(parse_timestamp("8210266876800000"), Err(CellError::NoSuchInstant));
    assert_eq!(parse_timestamp("-8334601228800001"), Err(CellError::NoSuchInstant));
    assert_eq!(parse_timestamp("9223372036854775807"), Err(CellError::NoSuchInstant));
    assert_eq!(parse_timestamp("-9223372036854775808"), Err(CellError::NoSuchInstant));
}

#[test]
fn datetime_fraction_becomes_milliseconds() {
    let whole = parse_datetime_str("2023-01-12 13:50:00").unwrap();
    assert_eq!(whole.timestamp_millis(), 1_673_531_400_000);
    assert_eq!(whole.timestamp_subsec_millis(), 0);
    for (text, millis) in [
        ("2023-01-12 13:50:00.123", 123u32),
        ("2023-01-12 13:50:00.000", 0),
        ("2023-01-12 13:50:00.001", 1),
        ("2023-01-12 13:50:00.999", 999),
        ("1969-12-31 23:59:59.250", 250),
        ("0001-01-01 00:00:00.500", 500),
    ] {
        let parsed = parse_datetime_str(text).unwrap();
        assert_eq!(parsed.timestamp_subsec_millis(), millis, "{}", text);
    }
    assert_eq!(parse_datetime_str("1969-12-31 23:59:59.250").unwrap().timestamp_millis(), -750);
    assert_eq!(parse_datetime_str("1970-01-01 00:00:01.500").unwrap().timestamp_millis(), 1500);
}

#[test]
fn datetime_must_have_the_fixed_form() {
    for cell in ["", "2023-01-12", "13:50:00", "2023-01-12T13:50:00", "2023-01-12 13:50:00.", "2023-01-12 13:50:00.12", "2023-01-12 13:50:00.1234", "2023-01-12 13:50", "2023-13-01 00:00:00", "2023-02-30 00:00:00", "2023-01-12 25:00:00", "2023-01-12 13:50:00 UTC", "yesterday", "1673531400000"] {
        assert_eq!(parse_datetime_str(cell), Err(CellError::NotADatetime), "{:?}", cell);
    }
}

#[test]
fn duration_in_whole_milliseconds() {
    assert_eq!(duration_from_millis("12928"), Ok(span(12928)));
    assert_eq!(duration_from_millis("-5"), Ok(span(-5)));
    assert_eq!(duration_from_millis("0"), Ok(span(0)));
    assert_eq!(duration_from_millis("9223372036854775807"), Ok(span(i64::MAX)));
    assert_eq!(duration_from_millis("-9223372036854775807"), Ok(span(-i64::MAX)));
    assert_eq!(duration_from_millis("-9223372036854775808"), Err(CellError::NoSuchSpan));
    assert_eq!(duration_from_millis("1.5"), Err(CellError::NotAnInteger));
    assert_eq!(duration_from_millis(""), Err(CellError::NotAnInteger));
}

#[test]
fn duration_in_seconds_is_rounded_down() {
    assert_eq!(duration_from_seconds(reading("1.5")), Ok(span(1500)));
    assert_eq!(duration_from_seconds(reading("12")), Ok(span(12000)));
    assert_eq!(duration_from_seconds(reading("0.0625")), Ok(span(62)));
    assert_eq!(duration_from_seconds(reading("-0.5")), Ok(span(-500)));
    assert_eq!(duration_from_seconds(reading("-0.0005")), Ok(span(-1)));
    assert_eq!(duration_from_seconds(reading("0.0005")), Ok(span(0)));
    assert_eq!(duration_from_seconds(reading("abc")), Err(CellError::NotADecimal));
    assert_eq!(duration_from_seconds(None), Err(CellError::NotADecimal));
    assert_eq!(
        duration_from_seconds(Some(Decimal { millis: i64::MIN, single_bits: 0 })),
        Err(CellError::NoSuchSpan)
    );
}

#[test]
fn blank_row_is_the_default_period() {
    let blank = PendingRow::new();
    assert_eq!(blank.period, ViewingPeriod::default());
    assert_eq!(blank.offset, None);
    assert_eq!(blank.end_time, None);
    assert!(!blank.query_time_set);
    assert_eq!(row("", ""), Ok(ViewingPeriod::default()));
}

#[test]
fn text_columns_take_the_cleaned_cell() {
    let period = row("userID,module_ref,stream_id,id", " 'u 1' ,\" tv \",  ''329'' , \"e,\"").unwrap();
    assert_eq!(period.user_id, "u 1");
    assert_eq!(period.provider, Some("tv".to_string()));
    assert_eq!(period.stream_id, Some("329".to_string()));
    assert_eq!(period.entry_id, Some("e".to_string()));
}

#[test]
fn valid_flag_is_one_of_three_words() {
    for (cell, flag) in [("VALID", true), ("true", true), ("1", true), (" 'true' ", true), ("TRUE", false), ("valid", false), ("0", false), ("", false), ("yes", false)] {
        assert_eq!(row("valid", cell).unwrap().valid, flag, "{:?}", cell);
    }
}

#[test]
fn ber_takes_the_single_precision_reading() {
    let period = row("ber", "0.5").unwrap();
    assert_eq!(period.ber_bits, 0x3F00_0000);
    assert_eq!(f32::from_bits(row("bitErrorRate", " 0.247597 ").unwrap().ber_bits), 0.247597);
    assert_eq!(row("ber", "n/a"), Err(RowError { column: 0, kind: CellError::NotADecimal }));
    let header = parse_header("ber", ',');
    assert_eq!(
        line_to_period("0.5", &header, ',', &Vec::new()),
        Err(RowError { column: 0, kind: CellError::NotADecimal })
    );
}

#[test]
fn status_that_names_none_changes_nothing() {
    assert_eq!(row("status", "NO_DATA").unwrap().status, Status::NoData);
    assert_eq!(row("status", "bogus").unwrap().status, Status::NoMatch);
    assert_eq!(row("status", "match").unwrap().status, Status::NoMatch);
    assert_eq!(row("status", "0").unwrap().status, Status::NoMatch);
    assert_eq!(row("status,Status", "NO_SOUND,what").unwrap().status, Status::NoSound);
    assert_eq!(row("status,userID", "bogus,u7").unwrap().user_id, "u7");
}

#[test]
fn set_status_keeps_the_rest() {
    let mut period = ViewingPeriod::default();
    period.user_id = "u".to_string();
    set_status(&mut period, "MATCH");
    assert_eq!(period.status, Status::Match);
    set_status(&mut period, "nothing");
    assert_eq!(period.status, Status::Match);
    set_status(&mut period, "NO_SOUND");
    assert_eq!(period.status, Status::NoSound);
    assert_eq!(period.user_id, "u");
    assert_eq!(period.stream_id, Some(String::new()));
}

#[test]
fn named_stream_makes_a_match() {
    assert_eq!(row("status,stream_id", "NO_DATA,329").unwrap().status, Status::Match);
    assert_eq!(row("status,name,userID", "NO_SOUND,bbc,u").unwrap().status, Status::Match);
    assert_eq!(row("STREAM_LABEL", "x").unwrap().status, Status::Match);
    assert_eq!(row("stream_id,status", "329,NO_DATA").unwrap().status, Status::Match);
}

#[test]
fn tokens_for_no_match_name_no_stream() {
    for cell in ["", "0", "NO_DATA", "NO_MATCH", "NO_SOUND", " '0' ", "  "] {
        assert_eq!(row("status,stream_id", &format!("NO_DATA,{}", cell)).unwrap().status, Status::NoData, "{:?}", cell);
    }
    assert_eq!(row("stream_id", "00").unwrap().status, Status::Match);
    assert_eq!(row("stream_id", "no_data").unwrap().status, Status::Match);
}

#[test]
fn offset_gives_the_time_in_file() {
    let period = row("tStart,offset", "100000,2500").unwrap();
    assert_eq!(period.time_in_file, at(97500));
    let period = row("offset,tStart", "2500,100000").unwrap();
    assert_eq!(period.time_in_file, at(97500));
    let period = row("offset_s,startTime", "1.5,1970-01-01 00:00:10.000").unwrap();
    assert_eq!(period.time_in_file, at(8500));
    let period = row("tStart,OFFSET", "0,-0.25").unwrap();
    assert_eq!(period.time_in_file, at(250));
    assert_eq!(period.offset(), span(-250));
}

#[test]
fn offset_applies_after_every_later_column() {
    let period = row("tStart,offset,timeInFile", "100000,2500,5").unwrap();
    assert_eq!(period.time_in_file, at(97500));
    let period = row("tStart,offset,tStart", "100000,2500,200000").unwrap();
    assert_eq!(period.query_time, at(200000));
    assert_eq!(period.time_in_file, at(197500));
    let period = row("tStart,offset,offset_s", "100000,2500,1.0").unwrap();
    assert_eq!(period.time_in_file, at(99000));
}

#[test]
fn offset_waits_for_the_query_time() {
    let period = row("timeInFile,offset", "777,2500").unwrap();
    assert_eq!(period.time_in_file, at(777));
    assert_eq!(period.query_time, at(0));
    let period = row("offset", "2500").unwrap();
    assert_eq!(period.time_in_file, at(0));
}

#[test]
fn end_time_gives_the_duration() {
    let period = row("startTime,endTime", "2023-01-12 13:50:00.000,2023-01-12 13:50:12.928").unwrap();
    assert_eq!(period.duration, span(12928));
    assert_eq!(period.end_time(), at(1_673_531_412_928));
    let period = row("END,START,durationMsec", "2023-01-12 13:50:12.928,2023-01-12 13:50:00,5").unwrap();
    assert_eq!(period.duration, span(12928));
    let period = row("stop_ts,tStart", "1970-01-01 00:00:01,3000").unwrap();
    assert_eq!(period.duration, span(-2000));
    let period = row("durationMsec,endTime", "5,2023-01-12 13:50:12.928").unwrap();
    assert_eq!(period.duration, span(5));
}

#[test]
fn derived_time_in_file_must_be_an_instant() {
    let line = format!("{},-1", MAX_EPOCH_MILLIS);
    assert_eq!(row("tStart,offset", &line), Err(RowError { column: 1, kind: CellError::DerivedNoInstant }));
    let line = format!("{},1", MIN_EPOCH_MILLIS);
    assert_eq!(row("tStart,offset", &line), Err(RowError { column: 1, kind: CellError::DerivedNoInstant }));
    let line = format!("1,{}", MIN_EPOCH_MILLIS);
    assert_eq!(row("offset,tStart", &line), Err(RowError { column: 1, kind: CellError::DerivedNoInstant }));
}

#[test]
fn names_and_cells_pair_up_to_the_shorter() {
    let period = row("userID,stream_id,tStart", "u1,329").unwrap();
    assert_eq!(period.user_id, "u1");
    assert_eq!(period.stream_id, Some("329".to_string()));
    assert_eq!(period.query_time, at(0));
    let period = row("userID", "u1,329,not a number").unwrap();
    assert_eq!(period.user_id, "u1");
    assert_eq!(period.stream_id, Some(String::new()));
}

#[test]
fn unknown_column_does_not_block_the_others() {
    let with = row("userID,nMatches,tStart,created,valid", "u1,???,5000,2023-01-02 04:43:05,1").unwrap();
    let without = row("userID,tStart,valid", "u1,5000,1").unwrap();
    assert_eq!(with, without);
    assert_eq!(with.user_id, "u1");
    assert_eq!(with.query_time, at(5000));
    assert!(with.valid);
    assert_eq!(
        row("nMatches,tStart", "2,x"),
        Err(RowError { column: 1, kind: CellError::NotAnInteger })
    );
    assert_eq!(row("tStart", "x"), Err(RowError { column: 0, kind: CellError::NotAnInteger }));
}

#[test]
fn fields_are_cleaned_once() {
    let header = parse_header("userID,stream_id", ',');
    let fields = vec![" \"\tu1\" ", "'329'"];
    let readings = vec![None, None];
    let period = fields_to_period(&header, &fields, &readings).unwrap();
    assert_eq!(period.user_id, "\tu1");
    assert_eq!(period.stream_id, Some("329".to_string()));
}

#[test]
fn row_is_folded_column_by_column() {
    let blank = PendingRow::new();
    let first = blank.apply("status", " NO_DATA ", None).unwrap();
    assert_eq!(first.period.status, Status::NoData);
    let second = first.apply("offset", "10", None).unwrap();
    assert_eq!(second.offset, Some(span(10)));
    assert_eq!(second.period.time_in_file, at(0));
    let third = second.apply("tStart", "50", None).unwrap();
    assert!(third.query_time_set);
    assert_eq!(third.period.time_in_file, at(40));
    let fourth = third.clone().apply("whatever", "###", None).unwrap();
    assert_eq!(fourth, third);
    let fifth = fourth.assign(FieldAction::SetStreamId, "329", None).unwrap();
    assert_eq!(fifth.period.status, Status::NoData);
    let sixth = fifth.derive().unwrap();
    assert_eq!(sixth.period.status, Status::Match);
    assert_eq!(sixth.apply("endTime", "soon", None), Err(CellError::NotADatetime));
}

#[test]
fn bad_epoch_cell_ends_the_run() {
    let lines = lines_of("userID,tStart\nu1,1000\nu2,abc\nu3,3000");
    assert_eq!(
        read_periods(&lines, ',', &table_readings(&lines, ',')),
        Err(ReadError::Cell { line: 2, column: 1, kind: CellError::NotAnInteger })
    );
    let lines = lines_of("userID\ttimeInFile\nu1\t\nu2\t5");
    assert_eq!(
        read_periods(&lines, '\t', &table_readings(&lines, '\t')),
        Err(ReadError::Cell { line: 1, column: 1, kind: CellError::NotAnInteger })
    );
}

#[test]
fn table_gives_one_period_for_each_line() {
    let lines = lines_of("userID\ttStart\tduration\nu1\t1000\t1.5\nu2\t2000\t0.25\n\nu4\t4000\t2");
    let periods = read_periods(&lines, '\t', &table_readings(&lines, '\t')).unwrap();
    assert_eq!(periods.len(), 4);
    assert_eq!(periods[0].user_id, "u1");
    assert_eq!(periods[0].duration, span(1500));
    assert_eq!(periods[1].query_time, at(2000));
    assert_eq!(periods[1].duration, span(250));
    assert_eq!(periods[2].user_id, "");
    assert_eq!(periods[2].query_time, at(0));
    assert_eq!(periods[3].user_id, "u4");
    assert_eq!(periods[3].end_time(), at(6000));
}

#[test]
fn table_needs_a_header() {
    assert_eq!(read_periods(&Vec::new(), ',', &Vec::new()), Err(ReadError::MissingHeader));
    let only_header = lines_of("userID,tStart");
    assert_eq!(read_periods(&only_header, ',', &Vec::new()), Ok(Vec::new()));
}

#[test]
fn missing_readings_read_as_no_decimal() {
    let lines = lines_of("userID,duration\nu1,1.5");
    assert_eq!(
        read_periods(&lines, ',', &Vec::new()),
        Err(ReadError::Cell { line: 1, column: 1, kind: CellError::NotADecimal })
    );
    let lines = lines_of("userID,durationMsec\nu1,15");
    assert_eq!(read_periods(&lines, ',', &Vec::new()).unwrap()[0].duration, span(15));
}

#[test]
fn instants_are_those_of_chrono() {
    assert!(DateTime::from_timestamp_millis(MAX_EPOCH_MILLIS).is_some());
    assert!(DateTime::from_timestamp_millis(MAX_EPOCH_MILLIS + 1).is_none());
    assert!(DateTime::from_timestamp_millis(MIN_EPOCH_MILLIS).is_some());
    assert!(DateTime::from_timestamp_millis(MIN_EPOCH_MILLIS - 1).is_none());
    assert_eq!(DateTime::<Utc>::MAX_UTC.timestamp_millis(), MAX_EPOCH_MILLIS);
    assert_eq!(DateTime::<Utc>::MIN_UTC.timestamp_millis(), MIN_EPOCH_MILLIS);
    assert!(chrono::Duration::try_milliseconds(i64::MIN).is_none());
    assert!(chrono::Duration::try_milliseconds(-i64::MAX).is_some());
}
