use struct_table::cell_text::{CalendarDate, CellTextCodec, ClockTime, Timestamp, UtcTimestamp};

fn date(year: u16, month: u8, day: u8) -> CalendarDate {
    CalendarDate { year, month, day }
}

fn time(hour: u8, minute: u8, second: u8) -> ClockTime {
    ClockTime { hour, minute, second }
}

fn timestamp(y: u16, mo: u8, d: u8, h: u8, mi: u8, s: u8) -> Timestamp {
    Timestamp { date: date(y, mo, d), time: time(h, mi, s) }
}

#[test]
fn date_default_format() {
    assert_eq!(date(2023, 2, 28).format_text(), "2023-02-28");
    assert_eq!(date(1, 1, 1).format_text(), "0001-01-01");
    assert_eq!(date(9999, 12, 31).format_text(), "9999-12-31");
}

#[test]
fn date_round_trip_at_boundaries() {
    let values = [
        date(2023, 2, 28),
        date(2020, 2, 29),
        date(1999, 12, 31),
        date(2000, 1, 1),
        date(1, 1, 1),
        date(9999, 12, 31),
        date(2021, 4, 30),
    ];
    for v in values {
        assert_eq!(CalendarDate::parse_text(&v.format_text()), Some(v));
    }
}

#[test]
fn date_parse_rejects_invalid_text() {
    assert_eq!(CalendarDate::parse_text("2023-02-30"), None); // no such day
    assert_eq!(CalendarDate::parse_text("2023-13-01"), None); // no such month
    assert_eq!(CalendarDate::parse_text("2023-00-10"), None);
    assert_eq!(CalendarDate::parse_text("2021-02-29"), None); // not a leap year
    assert_eq!(CalendarDate::parse_text("2023/02/28"), None); // wrong separators
    assert_eq!(CalendarDate::parse_text("2023-02"), None); // truncated
    assert_eq!(CalendarDate::parse_text(""), None);
    assert_eq!(CalendarDate::parse_text("abcd-ef-gh"), None);
}

#[test]
fn date_parse_accepts_lenient_default_forms() {
    // beyond the strict zero-padded shape, the default pattern's parser
    // accepts unpadded numbers
    assert_eq!(CalendarDate::parse_text("1996-2-3"), Some(date(1996, 2, 3)));
    assert_eq!(CalendarDate::parse_text("23-2-3"), Some(date(23, 2, 3)));
}

#[test]
fn time_default_format_round_trip() {
    assert_eq!(time(7, 9, 3).format_text(), "07:09:03");
    for v in [time(0, 0, 0), time(23, 59, 59), time(12, 30, 45)] {
        assert_eq!(ClockTime::parse_text(&v.format_text()), Some(v));
    }
}

#[test]
fn time_parse_rejects_invalid_text() {
    assert_eq!(ClockTime::parse_text("24:00:00"), None);
    assert_eq!(ClockTime::parse_text("12:60:00"), None);
    assert_eq!(ClockTime::parse_text("12-00-00"), None);
    assert_eq!(ClockTime::parse_text("12:00"), None);
}

#[test]
fn time_parse_accepts_lenient_default_forms() {
    assert_eq!(ClockTime::parse_text("7:9:3"), Some(time(7, 9, 3)));
}

#[test]
fn timestamp_default_format_round_trip() {
    let v = timestamp(2023, 1, 31, 12, 34, 56);
    assert_eq!(v.format_text(), "2023-01-31T12:34:56");
    assert_eq!(Timestamp::parse_text("2023-01-31T12:34:56"), Some(v));
    assert_eq!(Timestamp::parse_text("2023-01-31 12:34:56"), None); // space, not 'T'
    assert_eq!(Timestamp::parse_text("2023-01-31T12:34"), None);
    // lenient default form: unpadded numbers
    assert_eq!(Timestamp::parse_text("2023-1-31T12:34:56"), Some(v));
}

#[test]
fn utc_timestamp_default_format_round_trip() {
    let v = UtcTimestamp { datetime: timestamp(2023, 6, 1, 0, 0, 0) };
    assert_eq!(v.format_text(), "2023-06-01T00:00:00+00:00");
    assert_eq!(UtcTimestamp::parse_text("2023-06-01T00:00:00+00:00"), Some(v));
    // any offset is accepted and normalized to UTC
    assert_eq!(
        UtcTimestamp::parse_text("2023-06-01T01:00:00+01:00"),
        Some(UtcTimestamp { datetime: timestamp(2023, 6, 1, 0, 0, 0) })
    );
    // the default pattern's offset is numeric; a bare designator is not
    assert_eq!(UtcTimestamp::parse_text("2023-06-01T00:00:00Z"), None);
}

#[test]
fn date_custom_format() {
    let v = date(2023, 2, 28);
    assert_eq!(v.format_text_with("%d/%m/%Y"), Some("28/02/2023".to_string()));
    assert_eq!(CalendarDate::parse_text_with("28/02/2023", "%d/%m/%Y"), Some(v));
    assert_eq!(CalendarDate::parse_text_with("28/02/2023", "%Y-%m-%d"), None);
    // custom round trip through the renderer's own output
    let text = v.format_text_with("%B %d, %Y").unwrap();
    assert_eq!(text, "February 28, 2023");
    assert_eq!(CalendarDate::parse_text_with(&text, "%B %d, %Y"), Some(v));
}

#[test]
fn time_custom_format() {
    let v = time(23, 5, 9);
    assert_eq!(v.format_text_with("%H.%M.%S"), Some("23.05.09".to_string()));
    assert_eq!(ClockTime::parse_text_with("23.05.09", "%H.%M.%S"), Some(v));
    // a date-only specifier is invalid for a time value
    assert_eq!(v.format_text_with("%Y"), None);
}

#[test]
fn timestamp_custom_format() {
    let v = timestamp(2023, 1, 31, 12, 34, 56);
    assert_eq!(v.format_text_with("%Y-%m-%d %H:%M:%S"), Some("2023-01-31 12:34:56".to_string()));
    assert_eq!(Timestamp::parse_text_with("2023-01-31 12:34:56", "%Y-%m-%d %H:%M:%S"), Some(v));
}

#[test]
fn utc_custom_format_converts_offsets() {
    let v = UtcTimestamp { datetime: timestamp(2023, 1, 1, 11, 0, 0) };
    assert_eq!(
        v.format_text_with("%Y-%m-%dT%H:%M:%S%:z"),
        Some("2023-01-01T11:00:00+00:00".to_string())
    );
    // an offset in the text is converted to UTC on parse
    assert_eq!(UtcTimestamp::parse_text_with("2023-01-01T12:00:00+01:00", "%Y-%m-%dT%H:%M:%S%:z"), Some(v));
}

#[test]
fn custom_parse_outside_the_value_model_is_rejected() {
    // the year 12345 parses as a date but lies outside the four-digit model
    assert_eq!(CalendarDate::parse_text_with("12345-06-07", "%Y-%m-%d"), None);
}
