use fleet_gateway::clock::{Timestamp, MAX_SECS, MIN_SECS};

fn at(secs: i64, nanos: u32) -> Timestamp {
    Timestamp::new(secs, nanos).unwrap()
}

#[test]
fn seconds_round_towards_zero() {
    assert_eq!(at(10, 0).seconds_since(at(4, 0)), 6);
    assert_eq!(at(10, 0).seconds_since(at(4, 1)), 5);
    assert_eq!(at(4, 1).seconds_since(at(10, 0)), -5);
    assert_eq!(at(4, 0).seconds_since(at(10, 0)), -6);
    assert_eq!(at(4, 0).seconds_since(at(4, 999_999_999)), 0);
    assert_eq!(at(-1, 0).seconds_since(at(-3, 500_000_000)), 1);
}

#[test]
fn whole_range_can_be_held() {
    assert!(Timestamp::new(MIN_SECS - 1, 0).is_none());
    assert!(Timestamp::new(MAX_SECS + 1, 0).is_none());
    assert!(Timestamp::new(0, 1_000_000_000).is_none());
    let first = at(MIN_SECS, 0);
    let last = at(MAX_SECS, 999_999_999);
    assert_eq!(last.seconds_since(first), MAX_SECS - MIN_SECS);
    assert!(first.to_rfc3339().starts_with("-262143-01-01T00:00:00"));
    assert!(last.to_rfc3339().starts_with("+262142-12-31T23:59:59"));
    assert_eq!(chrono::DateTime::<chrono::Utc>::MIN_UTC.timestamp(), MIN_SECS);
    assert_eq!(chrono::DateTime::<chrono::Utc>::MAX_UTC.timestamp(), MAX_SECS);
}

#[test]
fn clock_runs_after_2020() {
    assert!(Timestamp::now().seconds_since(at(1_577_836_800, 0)) > 0);
}

#[test]
fn dates_as_text() {
    assert_eq!(at(0, 0).to_rfc3339(), "1970-01-01T00:00:00+00:00");
    assert_eq!(at(1_431_648_000, 1).to_rfc3339(), "2015-05-15T00:00:00.000000001+00:00");
}
