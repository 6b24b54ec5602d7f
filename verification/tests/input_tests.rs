use server_warden::input::{parse_decimal, read_hour, read_minute};
use server_warden::schedule::ScheduleError;

#[test]
fn decimal_numbers_are_read() {
    assert_eq!(parse_decimal("0"), Some(0));
    assert_eq!(parse_decimal("14"), Some(14));
    assert_eq!(parse_decimal("007"), Some(7));
    assert_eq!(parse_decimal("+30"), Some(30));
    assert_eq!(parse_decimal("4294967295"), Some(4_294_967_295));
    assert_eq!(parse_decimal("00000000004294967295"), Some(4_294_967_295));
}

#[test]
fn other_texts_are_not_numbers() {
    assert_eq!(parse_decimal(""), None);
    assert_eq!(parse_decimal("+"), None);
    assert_eq!(parse_decimal("-"), None);
    assert_eq!(parse_decimal("-1"), None);
    assert_eq!(parse_decimal("++1"), None);
    assert_eq!(parse_decimal("1+"), None);
    assert_eq!(parse_decimal("12a"), None);
    assert_eq!(parse_decimal("1 2"), None);
    assert_eq!(parse_decimal(" 12"), None);
    assert_eq!(parse_decimal("4294967296"), None);
    assert_eq!(parse_decimal("99999999999999999999999"), None);
    assert_eq!(parse_decimal("\u{0663}"), None);
}

#[test]
fn decimal_reading_agrees_with_the_standard_parser() {
    let samples = [
        "", "0", "9", "10", "23", "24", "59", "60", "+", "+0", "+59", "-0", "abc", "1e3", "0x10",
        "4294967295", "4294967296", "42949672950", "١٢", "12 ", "+-1", "000", "٣",
    ];
    for sample in samples {
        assert_eq!(parse_decimal(sample), sample.parse::<u32>().ok(), "{:?}", sample);
    }
}

#[test]
fn hours_are_read_from_answers() {
    assert_eq!(read_hour("14\n"), Ok(14));
    assert_eq!(read_hour("  0 \r\n"), Ok(0));
    assert_eq!(read_hour("23"), Ok(23));
    assert_eq!(read_hour("24"), Err(ScheduleError::HourOutOfRange));
    assert_eq!(read_hour("two\n"), Err(ScheduleError::NotANumber));
    assert_eq!(read_hour("\n"), Err(ScheduleError::NotANumber));
    assert_eq!(read_hour("-1"), Err(ScheduleError::NotANumber));
}

#[test]
fn minutes_are_read_from_answers() {
    assert_eq!(read_minute("30\n"), Ok(30));
    assert_eq!(read_minute("59"), Ok(59));
    assert_eq!(read_minute("70\n"), Err(ScheduleError::MinuteOutOfRange));
    assert_eq!(read_minute("60"), Err(ScheduleError::MinuteOutOfRange));
    assert_eq!(read_minute("1.5"), Err(ScheduleError::NotANumber));
}
