use wingman::time::{next_month, Timestamp};
use wingman::timetools::{
    append_signed, instant_of_unix, convert_timezone, get_current_timestamp, human_to_unix, parse_offset, unix_to_human,
};

#[test]
fn unix_time_as_a_date() {
    assert_eq!(unix_to_human("1704067200"), Ok("2024-01-01 00:00:00 UTC".to_string()));
    assert_eq!(unix_to_human(" 1704067200000 \n"), Ok("2024-01-01 00:00:00 UTC".to_string()));
    assert_eq!(unix_to_human("1704067200999"), Ok("2024-01-01 00:00:00 UTC".to_string()));
    assert_eq!(unix_to_human("0"), Ok("1970-01-01 00:00:00 UTC".to_string()));
    assert_eq!(unix_to_human("-1"), Ok("1969-12-31 23:59:59 UTC".to_string()));
    assert_eq!(unix_to_human("10000000000"), Ok("2286-11-20 17:46:40 UTC".to_string()));
    assert_eq!(unix_to_human("10000000001"), Ok("1970-04-26 17:46:40 UTC".to_string()));
    assert_eq!(
        unix_to_human("abc"),
        Err("Invalid timestamp. Enter a Unix timestamp (e.g., 1704067200)".to_string())
    );
    assert_eq!(
        unix_to_human(""),
        Err("Invalid timestamp. Enter a Unix timestamp (e.g., 1704067200)".to_string())
    );
    assert_eq!(
        unix_to_human("1.5"),
        Err("Invalid timestamp. Enter a Unix timestamp (e.g., 1704067200)".to_string())
    );
    assert_eq!(unix_to_human("9223372036854775807"), Err("Invalid timestamp".to_string()));
    assert_eq!(unix_to_human("-9223372036854775808"), Err("Invalid timestamp".to_string()));
}

#[test]
fn a_date_as_unix_time() {
    assert_eq!(human_to_unix("2024-01-01 00:00:00"), Ok("1704067200".to_string()));
    assert_eq!(human_to_unix("  2024-01-01T00:00:00 "), Ok("1704067200".to_string()));
    assert_eq!(human_to_unix("31/12/2023 23:59:59"), Ok("1704067199".to_string()));
    assert_eq!(human_to_unix("12/31/2023 23:59:59"), Ok("1704067199".to_string()));
    assert_eq!(human_to_unix("01/02/2024 00:00:00"), Ok("1706745600".to_string()));
    assert_eq!(human_to_unix("2024-01-01T01:00:00+01:00"), Ok("1704067200".to_string()));
    assert_eq!(human_to_unix("1969-12-31 23:59:59"), Ok("-1".to_string()));
    assert_eq!(human_to_unix("1970-01-01 00:00:00"), Ok("0".to_string()));
    assert_eq!(
        human_to_unix("tomorrow"),
        Err("Could not parse datetime. Try formats like: 2024-01-15 14:30:00".to_string())
    );
    assert_eq!(
        human_to_unix(""),
        Err("Could not parse datetime. Try formats like: 2024-01-15 14:30:00".to_string())
    );
}

#[test]
fn offsets_of_zones() {
    assert_eq!(parse_offset("UTC"), Ok(0));
    assert_eq!(parse_offset("utc"), Ok(0));
    assert_eq!(parse_offset("z"), Ok(0));
    assert_eq!(parse_offset("GMT"), Ok(0));
    assert_eq!(parse_offset("EST"), Ok(-18_000));
    assert_eq!(parse_offset("EDT"), Ok(-14_400));
    assert_eq!(parse_offset("CST"), Ok(-21_600));
    assert_eq!(parse_offset("CDT"), Ok(-18_000));
    assert_eq!(parse_offset("MST"), Ok(-25_200));
    assert_eq!(parse_offset("MDT"), Ok(-21_600));
    assert_eq!(parse_offset("pst"), Ok(-28_800));
    assert_eq!(parse_offset("PDT"), Ok(-25_200));
    assert_eq!(parse_offset("IST"), Ok(19_800));
    assert_eq!(parse_offset("JST"), Ok(32_400));
    assert_eq!(parse_offset("CET"), Ok(3_600));
    assert_eq!(parse_offset("CEST"), Ok(7_200));
    assert_eq!(parse_offset("AEST"), Ok(36_000));
    assert_eq!(parse_offset("AEDT"), Ok(39_600));
    assert_eq!(parse_offset("+05:30"), Ok(19_800));
    assert_eq!(parse_offset("-08:00"), Ok(-28_800));
    assert_eq!(parse_offset("+5"), Ok(18_000));
    assert_eq!(parse_offset("+23:59"), Ok(86_340));
    assert_eq!(parse_offset("-23:59:59"), Ok(-86_340));
    assert_eq!(parse_offset("+"), Ok(0));
    assert_eq!(parse_offset("+ab:cd"), Ok(0));
    assert_eq!(parse_offset("+-5"), Ok(-18_000));
    assert_eq!(parse_offset("--5"), Ok(18_000));
    assert_eq!(parse_offset("+99999999999:00"), Ok(0));
    assert_eq!(parse_offset("+24:00"), Err("Invalid offset: +24:00".to_string()));
    assert_eq!(parse_offset("-24"), Err("Invalid offset: -24".to_string()));
    assert_eq!(parse_offset("+2147483647"), Err("Invalid offset: +2147483647".to_string()));
    assert_eq!(
        parse_offset("Mars"),
        Err("Unknown timezone: Mars. Use UTC, EST, PST, or offset like +05:30".to_string())
    );
    assert_eq!(
        parse_offset(""),
        Err("Unknown timezone: . Use UTC, EST, PST, or offset like +05:30".to_string())
    );
}

#[test]
fn a_time_in_another_zone() {
    assert_eq!(
        convert_timezone("2024-01-15 14:30:00", "UTC", "+05:30"),
        Ok("2024-01-15 20:00:00 +05:30".to_string())
    );
    assert_eq!(
        convert_timezone("2024-01-15 14:30", "PST", "EST"),
        Ok("2024-01-15 17:30:00 -05:00".to_string())
    );
    assert_eq!(
        convert_timezone("2024-01-01 00:30:00", "jst", "utc"),
        Ok("2023-12-31 15:30:00 +00:00".to_string())
    );
    assert_eq!(
        convert_timezone("2024-01-15T14:30:00", "UTC", "UTC"),
        Err("Could not parse datetime. Use format: 2024-01-15 14:30:00".to_string())
    );
    assert_eq!(
        convert_timezone("2024-01-15 14:30:00", "Mars", "UTC"),
        Err("Unknown timezone: Mars. Use UTC, EST, PST, or offset like +05:30".to_string())
    );
    assert_eq!(
        convert_timezone("2024-01-15 14:30:00", "UTC", "+25:00"),
        Err("Invalid offset: +25:00".to_string())
    );
}

#[test]
fn the_present_as_unix_time() {
    let now = Timestamp { secs: 1_704_067_200, nanos: 123_456_789 };
    assert_eq!(get_current_timestamp(None, now), "1704067200");
    assert_eq!(get_current_timestamp(Some(false), now), "1704067200");
    assert_eq!(get_current_timestamp(Some(true), now), "1704067200123");
    let before = Timestamp { secs: -1, nanos: 500_000_000 };
    assert_eq!(get_current_timestamp(Some(true), before), "-500");
    assert_eq!(get_current_timestamp(None, before), "-1");
    assert_eq!(get_current_timestamp(None, Timestamp { secs: 0, nanos: 0 }), "0");
    assert_eq!(
        get_current_timestamp(Some(true), Timestamp { secs: i64::MIN, nanos: 0 }),
        "-9223372036854775808000"
    );
}

#[test]
fn unix_numbers_above_ten_thousand_million_count_milliseconds() {
    assert_eq!(instant_of_unix(0), (0, 0));
    assert_eq!(instant_of_unix(-5), (-5, 0));
    assert_eq!(instant_of_unix(10_000_000_000), (10_000_000_000, 0));
    assert_eq!(instant_of_unix(10_000_000_001), (10_000_000, 1_000_000));
    assert_eq!(instant_of_unix(1_704_067_200_999), (1_704_067_200, 999_000_000));
    assert_eq!(instant_of_unix(i64::MAX), (9_223_372_036_854_775, 807_000_000));
    assert_eq!(instant_of_unix(i64::MIN), (i64::MIN, 0));
}

#[test]
fn numbers_are_written_in_decimal() {
    let written = |n: i128| {
        let mut text: Vec<char> = vec!['='];
        append_signed(&mut text, n);
        text.into_iter().collect::<String>()
    };
    assert_eq!(written(0), "=0");
    assert_eq!(written(7), "=7");
    assert_eq!(written(10), "=10");
    assert_eq!(written(-10), "=-10");
    assert_eq!(written(1_000_000_007), "=1000000007");
    assert_eq!(written(i128::MAX), format!("={}", i128::MAX));
    assert_eq!(written(i128::MIN + 1), format!("={}", i128::MIN + 1));
}

#[test]
fn the_month_after() {
    assert_eq!(next_month(2024, 1), Some((2024, 2)));
    assert_eq!(next_month(2024, 12), Some((2025, 1)));
    assert_eq!(next_month(-1, 12), Some((0, 1)));
    assert_eq!(next_month(i32::MAX, 12), None);
    assert_eq!(next_month(i32::MAX, 11), Some((i32::MAX, 12)));
    assert_eq!(next_month(2024, 0), Some((2024, 1)));
    assert_eq!(next_month(2024, 13), Some((2024, 14)));
    assert_eq!(next_month(2024, u32::MAX), None);
}
