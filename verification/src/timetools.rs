//! Conversions between Unix time, written dates, and time zones.

use vstd::prelude::*;
use vstd::string::StringExecFns;
use crate::strings::{chars_of, str_equals, string_of};
use crate::text::{
    append_chars, append_decimal, copy_range, decimal_of, split_chars, split_on, trim_chars,
    trimmed, rows,
};
use crate::time::{rfc3339_instant, Timestamp};
use crate::unicode::uppercase_of;

verus! {

/// The number that `str::parse::<i64>` reads from `text`, or `None` where
/// it reads none.
pub uninterp spec fn parsed_i64(text: Seq<char>) -> Option<i64>;

/// The text `%Y-%m-%d %H:%M:%S UTC` that chrono writes for the UTC instant
/// of the two numbers, or `None` where the instant lies outside the
/// calendar's range.
pub uninterp spec fn utc_text(secs: i64, nanos: u32) -> Option<Seq<char>>;

/// The seconds since the epoch of the date and time that
/// `NaiveDateTime::parse_from_str` reads from `text` by `format`, taken as
/// UTC; `None` where the text does not fit the format.
pub uninterp spec fn naive_seconds(text: Seq<char>, format: Seq<char>) -> Option<i64>;

/// The text `%Y-%m-%d %H:%M:%S %:z` that chrono writes for the instant
/// `secs` in the zone `offset` seconds east of UTC, or `None` where the
/// instant or the offset is out of range.
pub uninterp spec fn zoned_text(secs: i64, offset: i32) -> Option<Seq<char>>;

/// `str::parse::<i64>`. Nothing is claimed of the result beyond its name.
#[verifier::external_body]
fn parse_i64(text: &str) -> (number: Option<i64>)
    ensures
        number == parsed_i64(text@),
{
    text.parse::<i64>().ok()
}

/// `DateTime::from_timestamp` and then `format("%Y-%m-%d %H:%M:%S UTC")`.
/// Nothing is claimed of the result beyond its name.
#[verifier::external_body]
fn chrono_format_utc(secs: i64, nanos: u32) -> (text: Option<String>)
    ensures
        text.deep_view() == utc_text(secs, nanos),
{
    match chrono::DateTime::from_timestamp(secs, nanos) {
        Some(moment) => Some(moment.format("%Y-%m-%d %H:%M:%S UTC").to_string()),
        None => None,
    }
}

/// `NaiveDateTime::parse_from_str`, the result taken as UTC and handed out
/// as `timestamp()`. Nothing is claimed of the result beyond its name.
#[verifier::external_body]
fn chrono_parse_naive(text: &str, format: &str) -> (secs: Option<i64>)
    ensures
        secs == naive_seconds(text@, format@),
{
    match chrono::NaiveDateTime::parse_from_str(text, format) {
        Ok(naive) => Some(naive.and_utc().timestamp()),
        Err(_) => None,
    }
}

/// `DateTime::from_timestamp`, `with_timezone` of `FixedOffset::east_opt`,
/// and then `format("%Y-%m-%d %H:%M:%S %:z")`. Nothing is claimed of the
/// result beyond its name.
#[verifier::external_body]
fn chrono_format_zoned(secs: i64, offset: i32) -> (text: Option<String>)
    ensures
        text.deep_view() == zoned_text(secs, offset),
{
    let zone = chrono::FixedOffset::east_opt(offset)?;
    let moment = chrono::DateTime::from_timestamp(secs, 0)?;
    Some(moment.with_timezone(&zone).format("%Y-%m-%d %H:%M:%S %:z").to_string())
}

/// A number written in decimal, with a minus sign where it is negative.
pub open spec fn signed_decimal(n: int) -> Seq<char> {
    if n < 0 {
        seq!['-'] + decimal_of((-n) as nat)
    } else {
        decimal_of(n as nat)
    }
}

/// The instant that a Unix time stands for: a number above ten thousand
/// million counts milliseconds, any other seconds.
pub open spec fn unix_instant(timestamp: i64) -> (i64, u32) {
    if timestamp > 10_000_000_000 {
        ((timestamp / 1000) as i64, ((timestamp % 1000) * 1_000_000) as u32)
    } else {
        (timestamp, 0u32)
    }
}

/// What writing a Unix time as a date comes to.
pub open spec fn unix_as_date(text: Seq<char>) -> Result<Seq<char>, Seq<char>> {
    match parsed_i64(trimmed(text)) {
        None => Err("Invalid timestamp. Enter a Unix timestamp (e.g., 1704067200)"@),
        Some(timestamp) => match utc_text(unix_instant(timestamp).0, unix_instant(timestamp).1) {
            Some(written) => Ok(written),
            None => Err("Invalid timestamp"@),
        },
    }
}

/// The formats in which a date and time is looked for, in this order.
pub open spec fn date_formats() -> Seq<Seq<char>> {
    seq![
        "%Y-%m-%d %H:%M:%S"@,
        "%Y-%m-%dT%H:%M:%S"@,
        "%Y-%m-%d %H:%M"@,
        "%Y-%m-%d"@,
        "%d/%m/%Y %H:%M:%S"@,
        "%m/%d/%Y %H:%M:%S"@,
    ]
}

/// The seconds that the first of the formats from `from` on reads from
/// `text`.
pub open spec fn first_reading(text: Seq<char>, formats: Seq<Seq<char>>, from: int) -> Option<i64>
    decreases formats.len() - from,
{
    if from < 0 || from >= formats.len() {
        None
    } else {
        match naive_seconds(text, formats[from]) {
            Some(secs) => Some(secs),
            None => first_reading(text, formats, from + 1),
        }
    }
}

/// The Unix time of a written date: by the first format that fits, or else
/// as RFC 3339.
pub open spec fn date_as_unix(text: Seq<char>) -> Option<i64> {
    match first_reading(trimmed(text), date_formats(), 0) {
        Some(secs) => Some(secs),
        None => match rfc3339_instant(trimmed(text)) {
            Some(pair) => Some(pair.0),
            None => None,
        },
    }
}

/// The offset east of UTC, in seconds, of a zone known by its name.
pub open spec fn named_offset(name: Seq<char>) -> Option<int> {
    if name == "UTC"@ || name == "Z"@ || name == "GMT"@ {
        Some(0int)
    } else if name == "EST"@ || name == "CDT"@ {
        Some(-18_000int)
    } else if name == "EDT"@ {
        Some(-14_400int)
    } else if name == "CST"@ || name == "MDT"@ {
        Some(-21_600int)
    } else if name == "MST"@ || name == "PDT"@ {
        Some(-25_200int)
    } else if name == "PST"@ {
        Some(-28_800int)
    } else if name == "IST"@ {
        Some(19_800int)
    } else if name == "JST"@ {
        Some(32_400int)
    } else if name == "CET"@ {
        Some(3_600int)
    } else if name == "CEST"@ {
        Some(7_200int)
    } else if name == "AEST"@ {
        Some(36_000int)
    } else if name == "AEDT"@ {
        Some(39_600int)
    } else {
        None
    }
}

/// The number that a part of a written offset stands for: nothing for a
/// part that is no number or does not fit thirty-two bits.
pub open spec fn offset_part(parts: Seq<Seq<char>>, at: int) -> int {
    if 0 <= at < parts.len() {
        match parsed_i64(parts[at]) {
            Some(n) => if -0x8000_0000 <= n < 0x8000_0000 {
                n as int
            } else {
                0
            },
            None => 0,
        }
    } else {
        0
    }
}

/// The offset east of UTC, in seconds, that a sign with hours and minutes
/// stands for.
pub open spec fn written_offset(zone: Seq<char>) -> int {
    let parts = split_on(zone.skip(1), ':');
    let amount = offset_part(parts, 0) * 3600 + offset_part(parts, 1) * 60;
    if zone[0] == '-' {
        -amount
    } else {
        amount
    }
}

/// The offset of a zone: of a name that is known, or of a sign with hours
/// and minutes, which must stay within a day.
pub open spec fn zone_offset(zone: Seq<char>) -> Result<i32, Seq<char>> {
    let name = uppercase_of(zone);
    match named_offset(name) {
        Some(secs) => Ok(secs as i32),
        None => if name.len() > 0 && (name[0] == '+' || name[0] == '-') {
            if -86_400 < written_offset(name) < 86_400 {
                Ok(written_offset(name) as i32)
            } else {
                Err("Invalid offset: "@ + name)
            }
        } else {
            Err(
                "Unknown timezone: "@ + zone + ". Use UTC, EST, PST, or offset like +05:30"@,
            )
        },
    }
}

/// What converting a written date and time from one zone to another comes
/// to.
pub open spec fn converted(datetime: Seq<char>, from_tz: Seq<char>, to_tz: Seq<char>) -> Result<
    Seq<char>,
    Seq<char>,
> {
    match zone_offset(from_tz) {
        Err(reason) => Err(reason),
        Ok(from) => match zone_offset(to_tz) {
            Err(reason) => Err(reason),
            Ok(to) => match local_reading(datetime) {
                None => Err("Could not parse datetime. Use format: 2024-01-15 14:30:00"@),
                Some(local) => if i64::MIN <= local - from <= i64::MAX {
                    match zoned_text((local - from) as i64, to) {
                        Some(written) => Ok(written),
                        None => Err("Ambiguous datetime"@),
                    }
                } else {
                    Err("Ambiguous datetime"@)
                },
            },
        },
    }
}

/// The seconds of a date and time written with or without seconds.
pub open spec fn local_reading(datetime: Seq<char>) -> Option<i64> {
    match naive_seconds(datetime, "%Y-%m-%d %H:%M:%S"@) {
        Some(secs) => Some(secs),
        None => naive_seconds(datetime, "%Y-%m-%d %H:%M"@),
    }
}

/// The present time as a Unix time: in milliseconds where asked so, else in
/// seconds.
pub open spec fn unix_time(as_ms: Option<bool>, now: Timestamp) -> int {
    if as_ms == Some(true) {
        now.secs * 1000 + now.nanos / 1_000_000
    } else {
        now.secs as int
    }
}

/// Appends `n`, written in decimal with its sign, to `text`.
pub fn append_signed(text: &mut Vec<char>, n: i128)
    requires
        n > i128::MIN,
    ensures
        final(text)@ == old(text)@ + signed_decimal(n as int),
{
    if n < 0 {
        text.push('-');
        append_decimal(text, (-n) as u128);
        assert(text@ =~= old(text)@ + (seq!['-'] + decimal_of((-n) as nat)));
    } else {
        append_decimal(text, n as u128);
    }
}

fn trimmed_text(text: &str) -> (kept: String)
    ensures
        kept@ == trimmed(text@),
{
    string_of(&trim_chars(&chars_of(text)))
}

/// The content of a result of text.
pub open spec fn result_view(r: Result<String, String>) -> Result<Seq<char>, Seq<char>> {
    match r {
        Ok(text) => Ok(text@),
        Err(reason) => Err(reason@),
    }
}

/// The instant that a Unix time stands for, as seconds and nanoseconds.
pub fn instant_of_unix(timestamp: i64) -> (instant: (i64, u32))
    ensures
        instant == unix_instant(timestamp),
{
    if timestamp > 10_000_000_000 {
        (timestamp / 1000, ((timestamp % 1000) * 1_000_000) as u32)
    } else {
        (timestamp, 0u32)
    }
}

/// Writes a Unix time, in seconds or in milliseconds, as a date and time in
/// UTC.
pub fn unix_to_human(text: &str) -> (written: Result<String, String>)
    ensures
        result_view(written) == unix_as_date(text@),
{
    let kept = trimmed_text(text);
    let timestamp = match parse_i64(kept.as_str()) {
        Some(timestamp) => timestamp,
        None => {
            return Err(
                String::from_str("Invalid timestamp. Enter a Unix timestamp (e.g., 1704067200)"),
            );
        },
    };
    let (secs, nanos) = instant_of_unix(timestamp);
    match chrono_format_utc(secs, nanos) {
        Some(written) => Ok(written),
        None => Err(String::from_str("Invalid timestamp")),
    }
}

fn format_list() -> (formats: Vec<&'static str>)
    ensures
        formats@.len() == 6,
        forall|i: int| 0 <= i < 6 ==> (#[trigger] formats@[i])@ == date_formats()[i],
{
    vec![
        "%Y-%m-%d %H:%M:%S",
        "%Y-%m-%dT%H:%M:%S",
        "%Y-%m-%d %H:%M",
        "%Y-%m-%d",
        "%d/%m/%Y %H:%M:%S",
        "%m/%d/%Y %H:%M:%S",
    ]
}

/// The Unix time, in seconds, of a written date and time.
pub fn human_to_unix(text: &str) -> (written: Result<String, String>)
    ensures
        match written {
            Ok(number) => date_as_unix(text@) matches Some(secs) && number@ == signed_decimal(
                secs as int,
            ),
            Err(reason) => date_as_unix(text@) is None && reason@
                == "Could not parse datetime. Try formats like: 2024-01-15 14:30:00"@,
        },
{
    let kept = trimmed_text(text);
    let formats = format_list();
    let mut found: Option<i64> = None;
    let mut i: usize = 0;
    while i < formats.len() && found.is_none()
        invariant
            i <= formats@.len(),
            formats@.len() == 6,
            forall|k: int| 0 <= k < 6 ==> (#[trigger] formats@[k])@ == date_formats()[k],
            match found {
                Some(secs) => first_reading(kept@, date_formats(), 0) == Some(secs),
                None => first_reading(kept@, date_formats(), 0) == first_reading(
                    kept@,
                    date_formats(),
                    i as int,
                ),
            },
        decreases formats@.len() - i, found.is_none() as int,
    {
        assert(date_formats().len() == 6);
        found = chrono_parse_naive(kept.as_str(), formats[i]);
        if found.is_none() {
            i += 1;
        }
    }
    proof {
        assert(date_formats().len() == 6);
    }
    let secs = match found {
        Some(secs) => secs,
        None => match Timestamp::parse_rfc3339(kept.as_str()) {
            Some(stamp) => stamp.secs,
            None => {
                return Err(
                    String::from_str(
                        "Could not parse datetime. Try formats like: 2024-01-15 14:30:00",
                    ),
                );
            },
        },
    };
    let mut out: Vec<char> = Vec::new();
    append_signed(&mut out, secs as i128);
    assert(out@ =~= signed_decimal(secs as int));
    Ok(string_of(&out))
}

fn offset_by_name(name: &str) -> (secs: Option<i32>)
    ensures
        match secs {
            Some(n) => named_offset(name@) == Some(n as int),
            None => named_offset(name@) is None,
        },
{
    if str_equals(name, "UTC") || str_equals(name, "Z") || str_equals(name, "GMT") {
        Some(0)
    } else if str_equals(name, "EST") || str_equals(name, "CDT") {
        Some(-18_000)
    } else if str_equals(name, "EDT") {
        Some(-14_400)
    } else if str_equals(name, "CST") || str_equals(name, "MDT") {
        Some(-21_600)
    } else if str_equals(name, "MST") || str_equals(name, "PDT") {
        Some(-25_200)
    } else if str_equals(name, "PST") {
        Some(-28_800)
    } else if str_equals(name, "IST") {
        Some(19_800)
    } else if str_equals(name, "JST") {
        Some(32_400)
    } else if str_equals(name, "CET") {
        Some(3_600)
    } else if str_equals(name, "CEST") {
        Some(7_200)
    } else if str_equals(name, "AEST") {
        Some(36_000)
    } else if str_equals(name, "AEDT") {
        Some(39_600)
    } else {
        None
    }
}

fn part_value(parts: &Vec<Vec<char>>, at: usize) -> (value: i64)
    ensures
        value == offset_part(rows(parts@), at as int),
        -0x8000_0000 <= value < 0x8000_0000,
{
    if at < parts.len() {
        match parse_i64(string_of(&parts[at]).as_str()) {
            Some(n) => {
                if -0x8000_0000 <= n && n < 0x8000_0000 {
                    n
                } else {
                    0
                }
            },
            None => 0,
        }
    } else {
        0
    }
}

/// The offset of a zone east of UTC, in seconds: of a name such as `UTC`
/// or `PST`, in whatever case, or of a sign with hours and minutes such as
/// `+05:30`.
pub fn parse_offset(tz: &str) -> (offset: Result<i32, String>)
    ensures
        match offset {
            Ok(secs) => zone_offset(tz@) == Ok::<i32, Seq<char>>(secs),
            Err(reason) => zone_offset(tz@) == Err::<i32, Seq<char>>(reason@),
        },
{
    let upper = tz.to_uppercase();
    match offset_by_name(upper.as_str()) {
        Some(secs) => {
            return Ok(secs);
        },
        None => {},
    }
    let name = chars_of(upper.as_str());
    if name.len() > 0 && (name[0] == '+' || name[0] == '-') {
        let rest = copy_range(&name, 1, name.len());
        assert(rest@ =~= name@.skip(1));
        let parts = split_chars(&rest, ':');
        let hours = part_value(&parts, 0);
        let minutes = part_value(&parts, 1);
        let amount: i64 = hours * 3600 + minutes * 60;
        let secs: i64 = if name[0] == '-' {
            -amount
        } else {
            amount
        };
        if -86_400 < secs && secs < 86_400 {
            Ok(secs as i32)
        } else {
            Err(String::from_str("Invalid offset: ").concat(upper.as_str()))
        }
    } else {
        Err(
            String::from_str("Unknown timezone: ").concat(tz).concat(
                ". Use UTC, EST, PST, or offset like +05:30",
            ),
        )
    }
}

/// Writes a date and time of one zone as the date and time of another.
pub fn convert_timezone(datetime: &str, from_tz: &str, to_tz: &str) -> (written: Result<
    String,
    String,
>)
    ensures
        result_view(written) == converted(datetime@, from_tz@, to_tz@),
{
    let from = match parse_offset(from_tz) {
        Ok(secs) => secs,
        Err(reason) => {
            return Err(reason);
        },
    };
    let to = match parse_offset(to_tz) {
        Ok(secs) => secs,
        Err(reason) => {
            return Err(reason);
        },
    };
    let local = match chrono_parse_naive(datetime, "%Y-%m-%d %H:%M:%S") {
        Some(secs) => secs,
        None => match chrono_parse_naive(datetime, "%Y-%m-%d %H:%M") {
            Some(secs) => secs,
            None => {
                return Err(
                    String::from_str("Could not parse datetime. Use format: 2024-01-15 14:30:00"),
                );
            },
        },
    };
    let instant = match local.checked_sub(from as i64) {
        Some(secs) => secs,
        None => {
            return Err(String::from_str("Ambiguous datetime"));
        },
    };
    match chrono_format_zoned(instant, to) {
        Some(written) => Ok(written),
        None => Err(String::from_str("Ambiguous datetime")),
    }
}

/// The time `now` as a Unix time: in milliseconds where asked so, else in
/// seconds.
pub fn get_current_timestamp(as_ms: Option<bool>, now: Timestamp) -> (written: String)
    ensures
        written@ == signed_decimal(unix_time(as_ms, now)),
{
    let in_ms = match as_ms {
        Some(yes) => yes,
        None => false,
    };
    let value: i128 = if in_ms {
        (now.secs as i128) * 1000 + ((now.nanos / 1_000_000) as i128)
    } else {
        now.secs as i128
    };
    let mut out: Vec<char> = Vec::new();
    append_signed(&mut out, value);
    assert(out@ =~= signed_decimal(value as int));
    string_of(&out)
}

} // verus!
