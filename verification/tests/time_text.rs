use chrono::{NaiveTime, TimeDelta};
use mksubrip::subrip::{Subrip, SubripFormat, SubripTextError};
use mksubrip::text::{decimal, minutes_seconds, padded2, padded3, parse_u32};
use mksubrip::time::TimeOfDay;
use mksubrip::utils::{naive_time_from_str, TimeTextError};

fn time(millis: u32) -> TimeOfDay {
    TimeOfDay::from_millis(millis).unwrap()
}

#[test]
fn test_naive_time_from_str() {
    let str = "00:05.001";
    let naive_time = naive_time_from_str(str).unwrap();

    assert_eq!(
        naive_time,
        TimeOfDay::from_num_seconds_from_midnight_opt(5, 1_000_000).unwrap()
    );
}

#[test]
fn wire_time_has_minutes_seconds_and_milliseconds() {
    assert_eq!(naive_time_from_str("12:34.567"), Ok(time(754_567)));
    assert_eq!(naive_time_from_str("00:00.000"), Ok(time(0)));
    assert_eq!(naive_time_from_str("59:59.999"), Ok(time(3_599_999)));
}

#[test]
fn wire_time_carries_minutes_and_seconds_beyond_59() {
    // No hour field: 99 minutes are 1 h 39 min, and 75 seconds carry over.
    assert_eq!(naive_time_from_str("99:00.000"), Ok(time(5_940_000)));
    assert_eq!(naive_time_from_str("00:75.000"), Ok(time(75_000)));
    assert_eq!(naive_time_from_str("99:99.999"), Ok(time(6_039_999)));
}

#[test]
fn wire_time_ignores_separators_and_what_follows() {
    assert_eq!(naive_time_from_str("01x02y003"), Ok(time(62_003)));
    assert_eq!(naive_time_from_str("01:02.003 and more"), Ok(time(62_003)));
}

#[test]
fn wire_time_fields_may_carry_a_plus_sign() {
    assert_eq!(naive_time_from_str("+1:+2.+03"), Ok(time(62_003)));
}

#[test]
fn wire_time_errors() {
    assert_eq!(naive_time_from_str(""), Err(TimeTextError::TooShort));
    assert_eq!(naive_time_from_str("00:05.00"), Err(TimeTextError::TooShort));
    assert_eq!(naive_time_from_str("ab:05.001"), Err(TimeTextError::Minutes));
    assert_eq!(naive_time_from_str("-1:05.001"), Err(TimeTextError::Minutes));
    assert_eq!(naive_time_from_str("00:0x.001"), Err(TimeTextError::Seconds));
    assert_eq!(naive_time_from_str("00:05.0 1"), Err(TimeTextError::Millis));
    assert_eq!(naive_time_from_str("00:05.++1"), Err(TimeTextError::Millis));
    // A separator of two bytes shifts the fields.
    assert_eq!(naive_time_from_str("00\u{e9}05.001"), Err(TimeTextError::Seconds));
}

#[test]
fn parse_u32_reads_like_str_parse() {
    let cases = [
        "0", "7", "007", "+7", "4294967295", "4294967296", "99999999999999999999", "", "+", "-1",
        "1 ", " 1", "1+", "++1", "12a", "\u{665}",
    ];
    for text in cases {
        assert_eq!(parse_u32(text.as_bytes()), text.parse::<u32>().ok(), "{:?}", text);
    }
}

#[test]
fn test_record_to_subrip() {
    let subrip = Subrip::from_vec_str(["1", "00:05.001", "00:10.001", "Hello, World!"]).unwrap();

    assert_eq!(subrip.get_index(), 1);
    assert_eq!(subrip.get_begin_time(), time(5_001));
    assert_eq!(subrip.get_end_time(), time(10_001));
    assert_eq!(subrip.get_content(), "Hello, World!");
    assert_eq!(subrip.get_format(), SubripFormat::SRT);
    assert!(!subrip.is_loaded());
    assert!(!subrip.is_deleted());
}

#[test]
fn record_errors_name_the_first_bad_field() {
    assert_eq!(
        Subrip::from_vec_str(["x", "bad", "bad", "t"]).unwrap_err(),
        SubripTextError::Index
    );
    assert_eq!(
        Subrip::from_vec_str(["1", "bad", "bad", "t"]).unwrap_err(),
        SubripTextError::BeginTime(TimeTextError::TooShort)
    );
    assert_eq!(
        Subrip::from_vec_str(["1", "00:05.001", "00:1x.001", "t"]).unwrap_err(),
        SubripTextError::EndTime(TimeTextError::Seconds)
    );
}

#[test]
fn numbers_as_text() {
    assert_eq!(decimal(0), "0");
    assert_eq!(decimal(7), "7");
    assert_eq!(decimal(10), "10");
    assert_eq!(decimal(4_294_967_295), "4294967295");
    assert_eq!(decimal(u64::MAX), u64::MAX.to_string());
    assert_eq!(padded2(0), "00");
    assert_eq!(padded2(9), "09");
    assert_eq!(padded2(10), "10");
    assert_eq!(padded2(120), "120");
    assert_eq!(padded3(0), "000");
    assert_eq!(padded3(7), "007");
    assert_eq!(padded3(42), "042");
    assert_eq!(padded3(999), "999");
    assert_eq!(minutes_seconds(0), "00:00");
    assert_eq!(minutes_seconds(59), "00:59");
    assert_eq!(minutes_seconds(61), "01:01");
    assert_eq!(minutes_seconds(7_200), "120:00");
}

#[test]
fn padded_numbers_match_the_format_macro() {
    for n in [0u64, 1, 9, 10, 11, 59, 60, 99, 100, 101, 999, 1_000, 123_456] {
        assert_eq!(padded2(n), format!("{:02}", n));
        assert_eq!(decimal(n), format!("{}", n));
    }
}

#[test]
fn times_as_text() {
    let t = time(((1 * 3600 + 2 * 60 + 3) * 1000) + 45);
    assert_eq!(t.to_srt_text(), "01:02:03,045");
    assert_eq!(t.to_clock_text(), "01:02:03");
    assert_eq!(t.to_minute_text(), "02:03");
    assert_eq!(time(0).to_srt_text(), "00:00:00,000");
    assert_eq!(time(86_399_999).to_srt_text(), "23:59:59,999");
}

#[test]
fn time_texts_match_chrono_formats() {
    for millis in [0u32, 1, 999, 1_000, 59_999, 60_000, 3_599_999, 3_600_000, 43_200_123, 86_399_999] {
        let t = time(millis);
        let naive =
            NaiveTime::from_num_seconds_from_midnight_opt(millis / 1000, millis % 1000 * 1_000_000)
                .unwrap();
        assert_eq!(t.to_srt_text(), naive.format("%H:%M:%S,%3f").to_string());
        assert_eq!(t.to_clock_text(), naive.format("%H:%M:%S").to_string());
        assert_eq!(t.to_minute_text(), naive.format("%M:%S").to_string());
    }
}

#[test]
fn times_are_built_from_parts_within_the_day() {
    assert_eq!(TimeOfDay::from_millis(86_399_999), Some(TimeOfDay { millis: 86_399_999 }));
    assert_eq!(TimeOfDay::from_millis(86_400_000), None);
    assert_eq!(
        TimeOfDay::from_num_seconds_from_midnight_opt(86_399, 999_999_999),
        Some(TimeOfDay { millis: 86_399_999 })
    );
    assert_eq!(TimeOfDay::from_num_seconds_from_midnight_opt(86_400, 0), None);
    // A leap second has no place in a cue.
    assert_eq!(TimeOfDay::from_num_seconds_from_midnight_opt(59, 1_000_000_000), None);
    assert_eq!(TimeOfDay::midnight().millis, 0);
    assert_eq!(TimeOfDay::default().millis, 0);
    assert_eq!(time(5_999).num_seconds_from_midnight(), 5);
}

#[test]
fn adding_wraps_at_midnight() {
    assert_eq!(time(10_000).add_millis(2_000), time(12_000));
    assert_eq!(time(10_000).add_millis(-2_000), time(8_000));
    assert_eq!(time(10_000).add_millis(0), time(10_000));
    assert_eq!(time(86_399_999).add_millis(1), time(0));
    assert_eq!(time(0).add_millis(-1), time(86_399_999));
    assert_eq!(time(500).add_millis(86_400_000), time(500));
    assert_eq!(time(500).add_millis(-86_400_000 * 3 - 1), time(499));
    assert_eq!(time(0).add_millis(i64::MAX), time((i64::MAX % 86_400_000) as u32));
    assert_eq!(
        time(0).add_millis(i64::MIN),
        time((i64::MIN).rem_euclid(86_400_000) as u32)
    );
}

#[test]
fn adding_matches_chrono() {
    for (millis, delta) in [
        (0u32, 0i64),
        (1_234, 5_678),
        (86_399_999, 1),
        (0, -1),
        (43_200_000, -43_200_001),
        (12_345_678, 86_400_000 * 5 + 17),
        (12_345_678, -86_400_000 * 5 - 17),
    ] {
        let naive =
            NaiveTime::from_num_seconds_from_midnight_opt(millis / 1000, millis % 1000 * 1_000_000)
                .unwrap();
        let sum = naive + TimeDelta::milliseconds(delta);
        let expected = (sum - NaiveTime::MIN).num_milliseconds() as u32;
        assert_eq!(time(millis).add_millis(delta).millis, expected);
    }
}

#[test]
fn distance_between_times() {
    assert_eq!(time(15_000).millis_since(time(10_000)), 5_000);
    assert_eq!(time(10_000).millis_since(time(15_000)), -5_000);
    assert_eq!(time(10_001).millis_since(time(10_001)), 0);
    assert_eq!(time(86_399_999).millis_since(time(0)), 86_399_999);
    assert_eq!(time(0).millis_since(time(86_399_999)), -86_399_999);
    assert_eq!(time(1_999).millis_since(time(1_000)), 999);
    assert_eq!(time(1_000).millis_since(time(1_999)), -999);
}

#[test]
fn clock_text_is_read_as_chrono_reads_it() {
    assert_eq!(TimeOfDay::parse_clock("12:34:56"), Some(time(45_296_000)));
    assert_eq!(TimeOfDay::parse_clock("00:00:00"), Some(time(0)));
    assert_eq!(TimeOfDay::parse_clock("23:59:59"), Some(time(86_399_000)));
    assert_eq!(TimeOfDay::parse_clock("24:00:00"), None);
    assert_eq!(TimeOfDay::parse_clock("12:60:00"), None);
    assert_eq!(TimeOfDay::parse_clock("12:34"), None);
    assert_eq!(TimeOfDay::parse_clock("noon"), None);
    assert_eq!(TimeOfDay::parse_clock(""), None);
    for text in ["7:5:3", " 07:05:03", "07:05:03 ", "07:05:03.5", "07-05-03", "+7:05:03"] {
        let expected = NaiveTime::parse_from_str(text, "%H:%M:%S")
            .ok()
            .map(|t| time((t - NaiveTime::MIN).num_milliseconds() as u32));
        assert_eq!(TimeOfDay::parse_clock(text), expected, "{:?}", text);
    }
}

#[test]
fn a_leap_second_is_not_read() {
    // chrono reads hh:mm:60 as a leap second; a cue cannot hold one.
    assert!(NaiveTime::parse_from_str("08:59:60", "%H:%M:%S").is_ok());
    assert_eq!(TimeOfDay::parse_clock("08:59:60"), None);
    assert_eq!(TimeOfDay::from_clock_reading(Some((32_399, 1_000_000_000))), None);
    assert_eq!(TimeOfDay::from_clock_reading(Some((32_399, 0))), Some(time(32_399_000)));
    assert_eq!(TimeOfDay::from_clock_reading(None), None);
}
