use datetime_parse::{
    is_tz_alpha, parse_with_clock, standardize_date, Clock, ParseError, Timestamp,
};

fn utc_clock() -> Clock {
    Clock { offset_secs: 0, year: 2024, month: 12, day: 27 }
}

fn india_clock() -> Clock {
    Clock { offset_secs: 19800, year: 2024, month: 12, day: 27 }
}

#[test]
fn round_trip_preserves_instant() {
    // parsing the RFC 3339 serialization of a parsed timestamp yields the
    // same instant; equality on Timestamp is instant equality
    let first = parse_with_clock("1672903639", utc_clock()).unwrap();
    let text = first.to_rfc3339().unwrap();
    let second = parse_with_clock(&text, utc_clock()).unwrap();
    assert_eq!(first, second);
    assert_eq!(first.secs, second.secs);
    assert_eq!(first.nanos, second.nanos);
}

#[test]
fn equality_is_on_the_instant_not_the_offset() {
    // the same instant written under two offsets compares equal
    let a = parse_with_clock("1996-12-19T16:39:57-08:00", utc_clock()).unwrap();
    let b = parse_with_clock("1996-12-20T00:39:57+00:00", utc_clock()).unwrap();
    assert_ne!(a.offset_secs, b.offset_secs);
    assert_eq!(a, b);
    // and ordering follows the instant
    let later = parse_with_clock("1996-12-20T00:39:58+00:00", utc_clock()).unwrap();
    assert!(a < later);
}

#[test]
fn round_trip_preserves_instant_with_offset() {
    let first = parse_with_clock("8/7/2023 8:23:50 AM", india_clock()).unwrap();
    let text = first.to_rfc3339().unwrap();
    let second = parse_with_clock(&text, utc_clock()).unwrap();
    assert_eq!(first.secs, second.secs);
    assert_eq!(first.nanos, second.nanos);
    assert_eq!(first.offset_secs, second.offset_secs);
}

#[test]
fn epoch_digit_count_boundaries() {
    // ten digits are seconds, one more digit tips into milliseconds
    let t = parse_with_clock("9999999999", utc_clock()).unwrap();
    assert_eq!(t.secs, 9999999999);
    assert_eq!(t.nanos, 0);
    let t = parse_with_clock("10000000000", utc_clock()).unwrap();
    assert_eq!(t.secs, 10000000);
    assert_eq!(t.nanos, 0);
    let t = parse_with_clock("9999999999999", utc_clock()).unwrap();
    assert_eq!(t.secs, 9999999999);
    assert_eq!(t.nanos, 999000000);
    let t = parse_with_clock("10000000000000", utc_clock()).unwrap();
    assert_eq!(t.secs, 10000000);
    assert_eq!(t.nanos, 0);
    let t = parse_with_clock("9999999999999999", utc_clock()).unwrap();
    assert_eq!(t.secs, 9999999999);
    assert_eq!(t.nanos, 999999000);
    let t = parse_with_clock("10000000000000000", utc_clock()).unwrap();
    assert_eq!(t.secs, 10000000);
    assert_eq!(t.nanos, 0);
}

#[test]
fn epoch_is_always_utc() {
    // epoch counts are offset-less: UTC is attached, never the clock offset
    let t = parse_with_clock("1672903639", india_clock()).unwrap();
    assert_eq!(t.offset_secs, 0);
    assert!(t.to_rfc3339().unwrap().starts_with("2023-01-05T07:27:19+00:00"));
}

#[test]
fn separator_normalization_same_instant() {
    // a dotted or slashed date prefix parses to the identical instant as
    // the dashed form
    let c = india_clock();
    let dotted = parse_with_clock("1970.12.31", c).unwrap();
    let slashed = parse_with_clock("1970/12/31", c).unwrap();
    let dashed = parse_with_clock("1970-12-31", c).unwrap();
    assert_eq!(dotted.secs, dashed.secs);
    assert_eq!(dotted.nanos, dashed.nanos);
    assert_eq!(dotted.offset_secs, dashed.offset_secs);
    assert_eq!(slashed.secs, dashed.secs);
}

#[test]
fn precedence_numeric_epoch_wins() {
    // an eight-digit string could be read as a compact date, but the
    // numeric-epoch interpreter stands earlier in the chain and wins
    let t = parse_with_clock("19701231", utc_clock()).unwrap();
    assert_eq!(t.secs, 19701231);
    assert_eq!(t.offset_secs, 0);
}

#[test]
fn missing_offset_gets_local_offset() {
    // an input with no offset information receives exactly the clock's
    // offset, not UTC and not any other default
    let t = parse_with_clock("2024-03-01 17:47:00", india_clock()).unwrap();
    assert_eq!(t.offset_secs, 19800);
    let t = parse_with_clock("2024-03-01 17:47:00", utc_clock()).unwrap();
    assert_eq!(t.offset_secs, 0);
    // the wall reading stays what the text said; the instant shifts
    assert!(t.to_rfc3339().unwrap().starts_with("2024-03-01T17:47:00+00:00"));
}

#[test]
fn explicit_offset_is_kept_verbatim() {
    let t = parse_with_clock("1996-12-19T16:39:57-08:00", india_clock()).unwrap();
    assert_eq!(t.offset_secs, -8 * 3600);
    assert_eq!(t.to_rfc3339().unwrap(), "1996-12-19T16:39:57-08:00");
}

#[test]
fn empty_input_is_rejected() {
    let r = parse_with_clock("", utc_clock());
    assert_eq!(r, Err(ParseError::EmptyInput));
    let e = "".parse::<datetime_parse::DateTimeFixedOffset>();
    assert!(e.is_err());
}

#[test]
fn unparseable_input_fails_cleanly() {
    let r = parse_with_clock("@@@@", utc_clock());
    assert_eq!(r, Err(ParseError::NoStrategyMatched));
    assert_eq!(r.unwrap_err().message(), "no format matched the input");
}

#[test]
fn standardize_date_rewrites_prefix_and_noise() {
    assert_eq!(standardize_date("12/13/2000 12:12:12.14"), "12-13-2000 12:12:12.14");
    assert_eq!(standardize_date("2020.01.01 5:00 UTC"), "2020-01-01 5:00 GMT");
    assert_eq!(standardize_date("2020.01.01 5:00 UT"), "2020-01-01 5:00 GMT");
    assert_eq!(standardize_date("Monday, 6 July; 1970"), "Monday 6 July 1970");
    // short inputs keep their separators
    assert_eq!(standardize_date("1.1.70"), "1.1.70");
    // characters beyond the eight-character prefix pass through
    assert_eq!(standardize_date("2000-01-01 12:12:12.14"), "2000-01-01 12:12:12.14");
}

#[test]
fn is_tz_alpha_splits_trailing_token() {
    let r = is_tz_alpha("1970-12-25 16:16:16 PST");
    assert_eq!(r, Some(("1970-12-25 16:16:16".to_string(), "PST".to_string())));
    assert_eq!(is_tz_alpha("1970-12-25 16:16:16 +0500"), None);
    assert_eq!(is_tz_alpha("PST"), Some(("".to_string(), "PST".to_string())));
}

#[test]
fn named_zone_resolves_through_rfc2822() {
    let t = parse_with_clock("Mon, 6 Jul 1970 15:30:00 PDT", utc_clock()).unwrap();
    assert_eq!(t.offset_secs, -7 * 3600);
    assert!(t.to_rfc3339().unwrap().starts_with("1970-07-06T15:30:00-07:00"));
}

#[test]
fn zone_before_year_is_reordered() {
    let t = parse_with_clock("Wed Jul 1, 3:33pm PST 1970", utc_clock()).unwrap();
    assert!(t.to_rfc3339().unwrap().starts_with("1970-07-01T15:33:00-08:00"));
}

#[test]
fn gmt_numeric_offset_is_reattached() {
    let t = parse_with_clock("Feb 14 2022 13:13:55 GMT+00:00", utc_clock()).unwrap();
    assert!(t.to_rfc3339().unwrap().starts_with("2022-02-14T13:13:55+00:00"));
    let t = parse_with_clock("Feb 14 2022 13:13:55 GMT+0530", utc_clock()).unwrap();
    assert_eq!(t.offset_secs, 19800);
}

#[test]
fn time_only_gets_clock_date() {
    let t = parse_with_clock("15:30:00", utc_clock()).unwrap();
    assert_eq!(t.secs, 1735313400);
    assert!(t.to_rfc3339().unwrap().starts_with("2024-12-27T15:30:00"));
}

#[test]
fn time_with_zone_gets_clock_date() {
    let t = parse_with_clock("16:16:16 GMT", utc_clock()).unwrap();
    assert!(t.to_rfc3339().unwrap().starts_with("2024-12-27T16:16:16+00:00"));
}

#[test]
fn brute_force_two_tokens_assume_year() {
    let c = utc_clock();
    let t = parse_with_clock("Feb 12", c).unwrap();
    assert!(t.to_rfc3339().unwrap().starts_with("2024-02-12T00:00:00"));
    let t = parse_with_clock("12 Feb", c).unwrap();
    assert!(t.to_rfc3339().unwrap().starts_with("2024-02-12T00:00:00"));
}

#[test]
fn brute_force_four_tokens_meridiem() {
    let t = parse_with_clock("Feb 12 3:33 pm", utc_clock()).unwrap();
    assert!(t.to_rfc3339().unwrap().starts_with("2024-02-12T15:33:00"));
}

#[test]
fn invalid_calendar_values_are_rejected() {
    // a layout can match while the calendar rejects the values
    assert!(parse_with_clock("2023-02-31", utc_clock()).is_err());
    assert!(parse_with_clock("25:61:00", utc_clock()).is_err());
}

#[test]
fn rfc3339_rendering_of_epoch_zero() {
    let t = Timestamp { secs: 0, nanos: 0, offset_secs: 0 };
    assert_eq!(t.to_rfc3339().unwrap(), "1970-01-01T00:00:00+00:00");
    let t = Timestamp { secs: 0, nanos: 0, offset_secs: 90000 };
    assert!(t.to_rfc3339().is_none());
}
