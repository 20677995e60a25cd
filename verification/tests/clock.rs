use chrono::{DateTime, NaiveDateTime, Utc};
use iscogram::clock::{LocalTime, MAX_SECONDS, MIN_SECONDS};

fn at(text: &str) -> LocalTime {
    let t = NaiveDateTime::parse_from_str(text, "%Y-%m-%dT%H:%M:%S%.f").unwrap().and_utc();
    LocalTime::new(t.timestamp(), t.timestamp_subsec_nanos()).unwrap()
}

#[test]
fn readings_are_those_of_chrono() {
    assert_eq!(DateTime::<Utc>::MIN_UTC.timestamp(), MIN_SECONDS);
    assert_eq!(DateTime::<Utc>::MAX_UTC.timestamp(), MAX_SECONDS);
    let cases = [
        (0, 0),
        (59, 1_999_999_999),
        (59, 2_000_000_000),
        (58, 1_000_000_000),
        (-1, 1_000_000_000),
        (-2, 1_000_000_000),
        (MIN_SECONDS, 0),
        (MIN_SECONDS - 1, 0),
        (MAX_SECONDS, 999_999_999),
        (MAX_SECONDS + 1, 0),
        (i64::MAX, 0),
        (i64::MIN, 0),
    ];
    for (secs, nanos) in cases {
        let known = DateTime::from_timestamp(secs, nanos).is_some();
        assert_eq!(LocalTime::new(secs, nanos).is_some(), known, "{} {}", secs, nanos);
    }
}

#[test]
fn readings_are_formatted() {
    assert_eq!(at("2016-01-02T11:46:21").iso(), "2016-01-02T11:46:21");
    assert_eq!(at("2016-01-02T11:46:21.75").iso(), "2016-01-02T11:46:21");
    assert_eq!(LocalTime::epoch().iso(), "1970-01-01T00:00:00");
    assert_eq!(LocalTime::new(59, 1_000_000_000).unwrap().iso(), "1970-01-01T00:00:60");
    assert_eq!(LocalTime::new(MIN_SECONDS, 0).unwrap().iso(), "-262143-01-01T00:00:00");
    assert_eq!(LocalTime::new(MAX_SECONDS, 0).unwrap().iso(), "+262142-12-31T23:59:59");
}

#[test]
fn rfc_3339_is_read_as_local_time() {
    assert_eq!(LocalTime::parse("2016-01-02T11:46:21+09:00"), Some(at("2016-01-02T11:46:21")));
    assert_eq!(LocalTime::parse("2016-01-02T11:46:21Z"), Some(at("2016-01-02T11:46:21")));
    assert_eq!(
        LocalTime::parse("2016-01-02T11:46:21.5-03:30"),
        Some(at("2016-01-02T11:46:21.5"))
    );
    assert_eq!(LocalTime::parse("2016-01-02T11:46:21"), None);
    assert_eq!(LocalTime::parse("yesterday"), None);
    assert_eq!(LocalTime::parse(""), None);
}

#[test]
fn shown_time_reads_back_as_the_same_second() {
    let first = LocalTime::new(-62167219200, 0).unwrap();
    let last = LocalTime::new(253402300799, 0).unwrap();
    let leap = LocalTime::new(59, 1_000_000_000).unwrap();
    for t in [first, last, leap, LocalTime::epoch(), at("2016-01-02T11:46:21")] {
        assert_eq!(LocalTime::parse(&format!("{}+09:00", t.iso())), Some(t));
    }
    let exact = at("2016-01-02T11:46:21.123");
    let shown = LocalTime::parse(&format!("{}+09:00", exact.iso()));
    assert_eq!(shown, Some(at("2016-01-02T11:46:21")));
}

#[test]
fn years_past_the_four_digits_do_not_read_back() {
    let late = LocalTime::new(253402300800, 0).unwrap();
    assert_eq!(late.iso(), "+10000-01-01T00:00:00");
    assert_eq!(LocalTime::parse(&format!("{}+09:00", late.iso())), None);
}

#[test]
fn the_zone_is_nine_hours_ahead() {
    let t = LocalTime::from_utc(1451702781, 5).unwrap();
    assert_eq!(t, LocalTime::new(1451735181, 5).unwrap());
    assert_eq!(t.iso(), "2016-01-02T11:46:21");
    assert_eq!((t.utc_secs(), t.secs(), t.nanos()), (1451702781, 1451735181, 5));
    assert_eq!(LocalTime::from_utc(MAX_SECONDS, 0), None);
    assert_eq!(LocalTime::from_utc(i64::MAX, 0), None);
    assert_eq!(LocalTime::from_utc(i64::MIN, 0), None);
    let last = LocalTime::from_utc(MAX_SECONDS - 32400, 0).unwrap();
    assert_eq!(last.secs(), MAX_SECONDS);
}
