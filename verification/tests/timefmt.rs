use chrono::{Duration, Utc};
use git_board::model::Timestamp;
use git_board::timefmt::{
    age, age_text, compact_duration, elapsed, elapsed_seconds,
};

fn stamp(time: chrono::DateTime<Utc>) -> Timestamp {
    Timestamp {
        seconds: time.timestamp(),
        nanos: time.timestamp_subsec_nanos(),
    }
}

fn at(seconds: i64) -> Timestamp {
    Timestamp { seconds, nanos: 0 }
}

#[test]
fn formats_age() {
    let now = Utc::now();
    assert_eq!(
        age(stamp(now - Duration::seconds(30)), stamp(now)),
        "less than a minute ago"
    );
    assert!(age(stamp(now - Duration::minutes(22)), stamp(now)).contains("22 minutes"));
}

#[test]
fn age_buckets() {
    let now = at(1_000_000);
    assert_eq!(age(at(1_000_000 - 59), now), "less than a minute ago");
    assert_eq!(age(at(1_000_000 - 60), now), "about 1 minute ago");
    assert_eq!(age(at(1_000_000 - 90), now), "about 1 minutes ago");
    assert_eq!(age(at(1_000_000 - 3599), now), "about 59 minutes ago");
    assert_eq!(age(at(1_000_000 - 3600), now), "about 1 hour ago");
    assert_eq!(age(at(1_000_000 - 5400), now), "about 1 hours ago");
    assert_eq!(age(at(1_000_000 - 86_400), now), "about 1 day ago");
    assert_eq!(age(at(1_000_000 - 129_600), now), "about 1 days ago");
    assert_eq!(age(at(1_000_000 - 864_000), now), "about 10 days ago");
    assert_eq!(age(at(1_000_500), now), "less than a minute ago");
    assert_eq!(age_text(7200), "about 2 hours ago");
}

#[test]
fn compact_durations() {
    assert_eq!(compact_duration(0), "0s");
    assert_eq!(compact_duration(59), "59s");
    assert_eq!(compact_duration(61), "1m1s");
    assert_eq!(compact_duration(3600), "1h0m");
    assert_eq!(compact_duration(3725), "1h2m");
    assert_eq!(compact_duration(-61), "-1s");
}

#[test]
fn elapsed_until_update_or_now() {
    let start = at(1_000);
    let updated = at(1_125);
    let now = at(5_000);
    assert_eq!(elapsed(Some(start), updated, "completed", now), "2m5s");
    assert_eq!(elapsed(Some(start), updated, "in_progress", now), "1h6m");
    assert_eq!(elapsed(None, updated, "completed", now), "-");
    assert_eq!(elapsed(Some(now), updated, "completed", now), "0s");
    assert_eq!(elapsed(Some(start), updated, "completed", at(0)), "2m5s");
    assert_eq!(elapsed(None, updated, "queued", now), "-");
}

#[test]
fn elapsed_seconds_count_whole_seconds() {
    let start = Timestamp {
        seconds: 10,
        nanos: 900_000_000,
    };
    let end = Timestamp {
        seconds: 12,
        nanos: 100_000_000,
    };
    assert_eq!(elapsed_seconds(start, end), 1);
    assert_eq!(elapsed_seconds(end, start), 0);
}
