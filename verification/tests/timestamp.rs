use cargo_info::timestamp::{TimeStamp, DAY, FIRST_SECOND, LAST_SECOND};

fn local_text(raw: &str) -> String {
    let at = raw.parse::<chrono::DateTime<chrono::Local>>().unwrap();
    format!("{}", at.naive_local())
}

fn is_blank(stamp: &TimeStamp) -> bool {
    stamp.absolute.is_empty() && stamp.relative.is_empty()
}

#[test]
fn none_is_blank() {
    assert!(is_blank(&TimeStamp::none()));
}

#[test]
fn parse_of_what_names_no_time_is_blank() {
    assert!(is_blank(&TimeStamp::parse("")));
    assert!(is_blank(&TimeStamp::parse("yesterday")));
    assert!(is_blank(&TimeStamp::parse("2015-09-05")));
    assert!(is_blank(&TimeStamp::parse("2015-13-05T23:56:04+00:00")));
    assert!(is_blank(&TimeStamp::parse("2015-09-05T23:56:04")));
}

#[test]
fn parse_gives_the_local_date_and_time() {
    let raw = "2015-09-05T23:56:04.123456+00:00";
    let stamp = TimeStamp::parse(raw);
    assert_eq!(stamp.absolute, local_text(raw));
    assert!(stamp.absolute.ends_with(".123456"));
    assert_ne!(stamp.absolute, raw);
}

#[test]
fn parse_gives_the_distance_from_now() {
    let stamp = TimeStamp::parse("2015-09-05T23:56:04+00:00");
    assert!(stamp.relative.ends_with(" years ago"));
    let far = TimeStamp::parse("9000-01-01T00:00:00Z");
    assert!(far.relative.starts_with("in "));
    assert!(far.relative.ends_with(" years"));
}

#[test]
fn parse_reads_the_same_instant_from_two_notations() {
    let a = TimeStamp::parse("2016-03-01T12:00:00Z");
    let b = TimeStamp::parse("2016-03-01 14:00:00+02:00");
    assert_eq!(a.absolute, b.absolute);
    assert!(!a.absolute.is_empty());
}

#[test]
fn parse_shows_years_beyond_four_digits() {
    for raw in [
        "+10000-01-01T00:00:00Z",
        "9999-12-31T23:59:59-00:01",
        "0000-01-01T00:00:00+00:01",
        "-0001-12-31T23:59:59Z",
        "+12345-06-07T08:09:10.5Z",
        "-262143-01-02T00:00:00Z",
        "+262142-12-30T23:59:59Z",
    ] {
        let stamp = TimeStamp::parse(raw);
        assert_eq!(stamp.absolute, local_text(raw));
        assert!(!stamp.relative.is_empty());
    }
    assert!(TimeStamp::parse("+10000-01-01T00:00:00Z").relative.starts_with("in "));
    assert!(TimeStamp::parse("-0001-12-31T23:59:59Z").relative.ends_with(" years ago"));
}

#[test]
fn parse_of_the_first_and_the_last_day_of_the_calendar_is_blank() {
    assert!(is_blank(&TimeStamp::parse("-262143-01-01T00:00:00Z")));
    assert!(is_blank(&TimeStamp::parse("-262143-01-01T23:59:59Z")));
    assert!(is_blank(&TimeStamp::parse("+262142-12-31T00:00:00Z")));
    assert!(is_blank(&TimeStamp::parse("+262142-12-31T23:59:59Z")));
}

#[test]
fn the_bounds_lie_a_day_inside_the_calendar() {
    let first = chrono::DateTime::<chrono::Utc>::MIN_UTC.timestamp();
    let last = chrono::DateTime::<chrono::Utc>::MAX_UTC.timestamp();
    assert_eq!(FIRST_SECOND, first + DAY);
    assert_eq!(LAST_SECOND, last - DAY);
    assert_eq!(DAY, 86_400);
    assert_eq!(FIRST_SECOND % 60, 0);
}

#[test]
fn at_shows_the_first_and_the_last_second() {
    assert!(!is_blank(&TimeStamp::at(Some((FIRST_SECOND, 0)))));
    assert!(!is_blank(&TimeStamp::at(Some((LAST_SECOND, 999_999_999)))));
    assert_eq!(
        TimeStamp::at(Some((FIRST_SECOND, 0))).absolute,
        local_text("-262143-01-02T00:00:00Z")
    );
    assert_eq!(
        TimeStamp::at(Some((LAST_SECOND, 0))).absolute,
        local_text("+262142-12-30T23:59:59Z")
    );
}

#[test]
fn at_of_none_or_out_of_range_is_blank() {
    assert!(is_blank(&TimeStamp::at(None)));
    assert!(is_blank(&TimeStamp::at(Some((FIRST_SECOND - 1, 0)))));
    assert!(is_blank(&TimeStamp::at(Some((LAST_SECOND + 1, 0)))));
    assert!(is_blank(&TimeStamp::at(Some((i64::MIN, 0)))));
    assert!(is_blank(&TimeStamp::at(Some((i64::MAX, 0)))));
}

#[test]
fn at_of_the_epoch() {
    let stamp = TimeStamp::at(Some((0, 0)));
    assert_eq!(stamp.absolute, local_text("1970-01-01T00:00:00Z"));
    assert!(stamp.relative.ends_with(" years ago"));
}

#[test]
fn at_of_nanoseconds_that_no_second_has_is_blank() {
    assert!(is_blank(&TimeStamp::at(Some((0, 2_000_000_000)))));
    assert!(is_blank(&TimeStamp::at(Some((0, 1_000_000_000)))));
}

#[test]
fn from_reads_a_string_only() {
    let doc = json::parse(r#"{"a":"2015-09-05T23:56:04+00:00","b":1441497364,"c":null}"#).unwrap();
    assert_eq!(TimeStamp::from(&doc["a"]).absolute, local_text("2015-09-05T23:56:04+00:00"));
    assert!(is_blank(&TimeStamp::from(&doc["b"])));
    assert!(is_blank(&TimeStamp::from(&doc["c"])));
    assert!(is_blank(&TimeStamp::from(&doc["absent"])));
}

#[test]
fn fmt_picks_the_rendering_and_fills_the_column() {
    let stamp = TimeStamp {
        absolute: "2015-09-05 23:56:04".to_string(),
        relative: "3 days ago".to_string(),
    };
    assert_eq!(stamp.fmt(false, 22), "2015-09-05 23:56:04   ");
    assert_eq!(stamp.fmt(true, 22), "3 days ago            ");
    assert_eq!(stamp.fmt(false, 0), "2015-09-05 23:56:04");
    assert_eq!(stamp.fmt(true, 0), "3 days ago");
}

#[test]
fn fmt_of_a_blank_timestamp_is_blanks() {
    assert_eq!(TimeStamp::none().fmt(false, 22), " ".repeat(22));
    assert_eq!(TimeStamp::none().fmt(true, 22), " ".repeat(22));
    assert_eq!(TimeStamp::none().fmt(false, 0), "");
    assert_eq!(TimeStamp::none().fmt(true, 0), "");
}

#[test]
fn at_of_a_time_that_is_shown_has_both_texts() {
    for secs in [FIRST_SECOND, -1, 0, 1, 1_441_497_364, LAST_SECOND] {
        for nanos in [0u32, 1, 500_000_000, 999_999_999] {
            let stamp = TimeStamp::at(Some((secs, nanos)));
            assert!(!stamp.absolute.is_empty());
            assert!(!stamp.relative.is_empty());
        }
    }
}

#[test]
fn at_of_a_leap_second_has_both_texts() {
    for secs in [59i64, -1, 1_435_708_799, FIRST_SECOND + 59] {
        for nanos in [1_000_000_000u32, 1_500_000_000, 1_999_999_999] {
            let stamp = TimeStamp::at(Some((secs, nanos)));
            assert!(!stamp.absolute.is_empty());
            assert!(!stamp.relative.is_empty());
        }
    }
    assert!(TimeStamp::at(Some((59, 1_500_000_000))).absolute.ends_with(":60.500"));
}

#[test]
fn at_of_a_second_that_cannot_leap_is_blank() {
    for secs in [0i64, 58, 60, -2, -60, 1_441_497_364] {
        for nanos in [1_000_000_000u32, 1_999_999_999, 2_000_000_000, u32::MAX] {
            assert!(is_blank(&TimeStamp::at(Some((secs, nanos)))));
        }
    }
    assert!(is_blank(&TimeStamp::at(Some((59, 2_000_000_000)))));
}

#[test]
fn parse_of_a_time_that_is_shown_has_both_texts() {
    for raw in [
        "2015-09-05T23:56:04.123456+00:00",
        "0000-01-01T00:00:00Z",
        "9999-12-31T23:59:59Z",
        "+10000-01-01T00:00:00Z",
        "2015-06-30T23:59:60Z",
        "2016-03-01 14:00:00+02:00",
    ] {
        let stamp = TimeStamp::parse(raw);
        assert!(!stamp.absolute.is_empty());
        assert!(!stamp.relative.is_empty());
    }
}

#[test]
fn seen_gives_the_date_and_time_of_the_zone() {
    let now = 3 * DAY;
    assert_eq!(TimeStamp::seen(0, 0, 0, now, 0).absolute, "1970-01-01 00:00:00");
    assert_eq!(TimeStamp::seen(0, 0, 3600, now, 0).absolute, "1970-01-01 01:00:00");
    assert_eq!(TimeStamp::seen(0, 0, -3600, now, 0).absolute, "1969-12-31 23:00:00");
    assert_eq!(TimeStamp::seen(0, 0, 86_399, now, 0).absolute, "1970-01-01 23:59:59");
    assert_eq!(TimeStamp::seen(0, 0, -86_399, now, 0).absolute, "1969-12-31 00:00:01");
    assert_eq!(
        TimeStamp::seen(1_441_497_364, 123_456_000, 7200, now, 0).absolute,
        "2015-09-06 01:56:04.123456"
    );
    assert_eq!(
        TimeStamp::seen(1_441_497_364, 500_000_000, 0, now, 0).absolute,
        "2015-09-05 23:56:04.500"
    );
    assert_eq!(TimeStamp::seen(1_441_497_364, 1, 0, now, 0).absolute, "2015-09-05 23:56:04.000000001");
    assert_eq!(TimeStamp::seen(59, 1_500_000_000, 0, now, 0).absolute, "1970-01-01 00:00:60.500");
}

#[test]
fn seen_gives_the_date_and_time_at_the_ends_of_the_calendar() {
    assert_eq!(TimeStamp::seen(FIRST_SECOND, 0, 0, 0, 0).absolute, "-262143-01-02 00:00:00");
    assert_eq!(TimeStamp::seen(FIRST_SECOND, 0, -86_399, 0, 0).absolute, "-262143-01-01 00:00:01");
    assert_eq!(TimeStamp::seen(LAST_SECOND, 0, 0, 0, 0).absolute, "+262142-12-30 23:59:59");
    assert_eq!(TimeStamp::seen(LAST_SECOND, 0, 86_399, 0, 0).absolute, "+262142-12-31 23:59:58");
    assert_eq!(
        TimeStamp::seen(LAST_SECOND, 1_999_999_999, 86_399, 0, 0).absolute,
        "+262142-12-31 23:59:59.999999999"
    );
    assert_eq!(TimeStamp::seen(253_402_300_800, 0, 0, 0, 0).absolute, "+10000-01-01 00:00:00");
    assert_eq!(TimeStamp::seen(-62_167_219_201, 0, 0, 0, 0).absolute, "-0001-12-31 23:59:59");
}

#[test]
fn seen_gives_the_distance_from_the_reading() {
    let at = 1_441_497_364;
    assert_eq!(TimeStamp::seen(at, 0, 0, at, 0).relative, "now");
    assert_eq!(TimeStamp::seen(at, 0, 0, at + 10, 0).relative, "now");
    assert_eq!(TimeStamp::seen(at, 0, 0, at + 30, 0).relative, "30 seconds ago");
    assert_eq!(TimeStamp::seen(at, 0, 0, at + 60, 0).relative, "a minute ago");
    assert_eq!(TimeStamp::seen(at, 0, 0, at + 3 * 3600, 0).relative, "3 hours ago");
    assert_eq!(TimeStamp::seen(at, 0, 0, at + 3 * DAY, 0).relative, "3 days ago");
    assert_eq!(TimeStamp::seen(at, 0, 0, at + 400 * DAY, 0).relative, "a year ago");
    assert_eq!(TimeStamp::seen(at, 0, 0, at - 3 * DAY, 0).relative, "in 3 days");
    assert_eq!(TimeStamp::seen(at, 0, 0, at - 2 * 3600, 0).relative, "in 2 hours");
}

#[test]
fn seen_does_not_let_the_zone_change_the_distance() {
    let at = 1_441_497_364;
    for offset in [-86_399, -3600, 0, 3600, 86_399] {
        assert_eq!(TimeStamp::seen(at, 0, offset, at + 3 * DAY, 0).relative, "3 days ago");
    }
}

#[test]
fn seen_from_the_ends_of_what_a_clock_reads() {
    assert!(TimeStamp::seen(FIRST_SECOND, 0, 0, LAST_SECOND + DAY, 999_999_999)
        .relative
        .ends_with(" years ago"));
    assert!(TimeStamp::seen(LAST_SECOND, 0, 0, 0, 0).relative.starts_with("in "));
}

#[test]
fn at_agrees_with_seen_in_the_zone_of_the_machine() {
    let raw = "2015-09-05T23:56:04.123456+00:00";
    let parsed = raw.parse::<chrono::DateTime<chrono::Local>>().unwrap();
    let offset = parsed.offset().local_minus_utc();
    let at = TimeStamp::at(Some((parsed.timestamp(), parsed.timestamp_subsec_nanos())));
    let seen = TimeStamp::seen(parsed.timestamp(), parsed.timestamp_subsec_nanos(), offset, 0, 0);
    assert_eq!(at.absolute, seen.absolute);
    assert_eq!(at.absolute, TimeStamp::parse(raw).absolute);
}
