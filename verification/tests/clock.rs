use regloss_notifier::clock::{
    Timestamp, MAX_UNIX_NANOS, MIN_UNIX_NANOS, NANOS_PER_SECOND, YEAR_ZERO_UNIX_NANOS,
};
use regloss_notifier::error::Error;
use time::OffsetDateTime;

const NEW_YEAR_2019: i128 = 1_546_300_800_000_000_000;

fn at(unix_nanos: i128) -> Timestamp {
    Timestamp::from_unix_nanos(unix_nanos).unwrap()
}

#[test]
fn range_is_that_of_the_time_crate() {
    assert!(OffsetDateTime::from_unix_timestamp_nanos(MIN_UNIX_NANOS).is_ok());
    assert!(OffsetDateTime::from_unix_timestamp_nanos(MIN_UNIX_NANOS - 1).is_err());
    assert!(OffsetDateTime::from_unix_timestamp_nanos(MAX_UNIX_NANOS).is_ok());
    assert!(OffsetDateTime::from_unix_timestamp_nanos(MAX_UNIX_NANOS + 1).is_err());
    assert_eq!(OffsetDateTime::from_unix_timestamp_nanos(MIN_UNIX_NANOS).unwrap().year(), -9999);
    assert_eq!(OffsetDateTime::from_unix_timestamp_nanos(MAX_UNIX_NANOS).unwrap().year(), 9999);
}

#[test]
fn from_unix_nanos_accepts_exactly_the_range() {
    assert!(Timestamp::from_unix_nanos(MIN_UNIX_NANOS).is_some());
    assert!(Timestamp::from_unix_nanos(MIN_UNIX_NANOS - 1).is_none());
    assert!(Timestamp::from_unix_nanos(MAX_UNIX_NANOS).is_some());
    assert!(Timestamp::from_unix_nanos(MAX_UNIX_NANOS + 1).is_none());
    assert_eq!(at(0).unix_nanos(), 0);
    assert_eq!(at(-5).unix_nanos(), -5);
    assert_eq!(at(NEW_YEAR_2019).unix_nanos(), NEW_YEAR_2019);
}

#[test]
fn now_is_a_present_day_instant() {
    let now = Timestamp::now();
    assert!(now.unix_nanos() > NEW_YEAR_2019);
    assert!(now.unix_nanos() <= MAX_UNIX_NANOS);
}

#[test]
fn is_before_is_strict() {
    assert!(at(1).is_before(&at(2)));
    assert!(!at(2).is_before(&at(1)));
    assert!(!at(2).is_before(&at(2)));
    assert!(at(-1).is_before(&at(0)));
}

#[test]
fn plus_seconds_adds_whole_seconds() {
    assert_eq!(at(7).plus_seconds(0).unwrap().unix_nanos(), 7);
    assert_eq!(at(7).plus_seconds(3).unwrap().unix_nanos(), 3 * NANOS_PER_SECOND + 7);
    assert_eq!(
        at(NEW_YEAR_2019).plus_seconds(7200).unwrap().unix_nanos(),
        NEW_YEAR_2019 + 7_200_000_000_000
    );
}

#[test]
fn plus_seconds_stops_at_the_end_of_the_range() {
    let last_second = at(MAX_UNIX_NANOS - NANOS_PER_SECOND);
    assert_eq!(last_second.plus_seconds(1).unwrap().unix_nanos(), MAX_UNIX_NANOS);
    assert!(last_second.plus_seconds(2).is_none());
    assert!(at(0).plus_seconds(u64::MAX).is_none());
}

#[test]
fn rfc3339_of_known_instants() {
    assert_eq!(at(0).rfc3339().unwrap(), "1970-01-01T00:00:00Z");
    assert_eq!(at(NEW_YEAR_2019).rfc3339().unwrap(), "2019-01-01T00:00:00Z");
    assert_eq!(at(NEW_YEAR_2019 + 500_000_000).rfc3339().unwrap(), "2019-01-01T00:00:00.5Z");
    assert_eq!(at(MAX_UNIX_NANOS).rfc3339().unwrap(), "9999-12-31T23:59:59.999999999Z");
}

#[test]
fn rfc3339_starts_with_the_year_zero() {
    assert_eq!(at(YEAR_ZERO_UNIX_NANOS).rfc3339().unwrap(), "0000-01-01T00:00:00Z");
    assert!(matches!(at(YEAR_ZERO_UNIX_NANOS - 1).rfc3339(), Err(Error::TimeFormat(_))));
    assert!(matches!(at(MIN_UNIX_NANOS).rfc3339(), Err(Error::TimeFormat(_))));
}

#[test]
fn rfc3339_error_carries_the_formatter_s_words() {
    let e = at(YEAR_ZERO_UNIX_NANOS - 1).rfc3339().unwrap_err();
    assert_eq!(
        e.to_string(),
        "Time Format Error: The year component cannot be formatted into the requested format."
    );
}

#[test]
fn to_string_is_the_date_time_s_display() {
    let shown = at(NEW_YEAR_2019).to_string();
    assert_eq!(
        shown,
        OffsetDateTime::from_unix_timestamp_nanos(NEW_YEAR_2019).unwrap().to_string()
    );
    assert!(shown.starts_with("2019-01-01 0:00:00"));
    assert!(shown.ends_with("+00:00:00"));
    assert_ne!(shown, at(NEW_YEAR_2019 + NANOS_PER_SECOND).to_string());
}
