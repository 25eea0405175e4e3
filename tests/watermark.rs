use playlist_sync::timestamp::{plan_source, read_stamp, SourcePlan, Stamp, Timestamp};

fn stamp(s: &str) -> Stamp {
    read_stamp(&Some(s.to_string()))
}

#[test]
fn reads_source_times() {
    assert_eq!(stamp("2024-01-01T00:00:00.000Z"), Stamp::At(Timestamp { seconds: 1704067200, nanos: 0 }));
    assert_eq!(stamp("1970-01-01T00:00:01.5Z"), Stamp::At(Timestamp { seconds: 1, nanos: 500_000_000 }));
    assert_eq!(stamp("2024-01-01"), Stamp::Unreadable);
    assert_eq!(stamp(""), Stamp::Unreadable);
    assert_eq!(read_stamp(&None), Stamp::Absent);
}

#[test]
fn compares_times() {
    let early = Timestamp { seconds: 10, nanos: 5 };
    let late = Timestamp { seconds: 10, nanos: 6 };
    assert!(early.not_after(&late));
    assert!(early.not_after(&early));
    assert!(!late.not_after(&early));
    assert!(!Timestamp { seconds: 11, nanos: 0 }.not_after(&late));
}

#[test]
fn plans_by_watermark() {
    let t = stamp("2024-01-01T00:00:00.000Z");
    let later = stamp("2024-01-01T00:00:00.001Z");
    assert_eq!(plan_source(t, t), SourcePlan::Reuse);
    assert_eq!(plan_source(t, later), SourcePlan::Reuse);
    assert_eq!(plan_source(later, t), SourcePlan::Refetch);
    assert_eq!(plan_source(t, Stamp::Absent), SourcePlan::Refetch);
    assert_eq!(plan_source(t, Stamp::Unreadable), SourcePlan::Refetch);
    assert_eq!(plan_source(Stamp::Absent, t), SourcePlan::Refetch);
    assert_eq!(plan_source(Stamp::Unreadable, t), SourcePlan::Reject);
}
