use offroad_frontier::utils::profiler::{ProfileEntry, Profiler};
use std::time::Duration;

#[test]
fn profile_entry_new_is_empty() {
    let entry = ProfileEntry::new("physics".to_string());
    assert_eq!(entry.name, "physics");
    assert_eq!(entry.total_time, Duration::ZERO);
    assert_eq!(entry.call_count, 0);
    assert_eq!(entry.min_time, Duration::MAX);
    assert_eq!(entry.max_time, Duration::ZERO);
    assert_eq!(entry.average(), Duration::ZERO);
}

#[test]
fn profile_entry_records_total_count_min_max() {
    let mut entry = ProfileEntry::new("render".to_string());
    entry.record(Duration::from_millis(5));
    assert_eq!(entry.total_time, Duration::from_millis(5));
    assert_eq!(entry.call_count, 1);
    assert_eq!(entry.min_time, Duration::from_millis(5));
    assert_eq!(entry.max_time, Duration::from_millis(5));

    entry.record(Duration::from_millis(2));
    entry.record(Duration::from_millis(11));
    assert_eq!(entry.total_time, Duration::from_millis(18));
    assert_eq!(entry.call_count, 3);
    assert_eq!(entry.min_time, Duration::from_millis(2));
    assert_eq!(entry.max_time, Duration::from_millis(11));
    assert_eq!(entry.average(), Duration::from_millis(6));
    assert_eq!(entry.name, "render");
}

#[test]
fn profile_entry_average_rounds_down_to_nanoseconds() {
    let mut entry = ProfileEntry::new("audio".to_string());
    entry.record(Duration::from_nanos(10));
    entry.record(Duration::from_nanos(0));
    entry.record(Duration::from_nanos(0));
    assert_eq!(entry.average(), Duration::from_nanos(3));
    assert_eq!(entry.min_time, Duration::ZERO);
    assert_eq!(entry.max_time, Duration::from_nanos(10));
}

#[test]
fn profile_entry_average_across_seconds() {
    let mut entry = ProfileEntry::new("io".to_string());
    entry.record(Duration::new(1, 0));
    entry.record(Duration::new(0, 0));
    assert_eq!(entry.average(), Duration::new(0, 500_000_000));
    entry.record(Duration::new(3, 999_999_999));
    // (4 s + 999,999,999 ns) / 3
    assert_eq!(entry.average(), Duration::new(1, 666_666_666));
    // average lies between min and max
    assert!(entry.min_time <= entry.average() && entry.average() <= entry.max_time);
}

#[test]
fn profile_entry_equal_durations_keep_min_and_max() {
    let mut entry = ProfileEntry::new("eq".to_string());
    entry.record(Duration::from_micros(7));
    entry.record(Duration::from_micros(7));
    assert_eq!(entry.min_time, Duration::from_micros(7));
    assert_eq!(entry.max_time, Duration::from_micros(7));
    assert_eq!(entry.total_time, Duration::from_micros(14));
}

#[test]
fn profile_entry_average_with_many_calls() {
    let mut entry = ProfileEntry::new("many".to_string());
    entry.total_time = Duration::from_nanos(2 * ((1u64 << 32) + 1));
    entry.call_count = (1u64 << 32) + 1;
    assert_eq!(entry.average(), Duration::from_nanos(2));
    entry.call_count = 1u64 << 32;
    entry.total_time = Duration::from_secs(1u64 << 32);
    assert_eq!(entry.average(), Duration::from_secs(1));
}

#[test]
fn profile_entry_try_record_refuses_overflow() {
    let mut entry = ProfileEntry::new("full".to_string());
    assert!(entry.try_record(Duration::from_millis(3)));
    assert_eq!(entry.call_count, 1);
    assert!(!entry.try_record(Duration::MAX));
    assert_eq!(entry.total_time, Duration::from_millis(3));
    assert_eq!(entry.call_count, 1);
    entry.call_count = u64::MAX;
    assert!(!entry.try_record(Duration::from_millis(1)));
    assert_eq!(entry.call_count, u64::MAX);
}

#[test]
fn profile_entry_clone_keeps_everything() {
    let mut entry = ProfileEntry::new("c".to_string());
    entry.record(Duration::from_millis(4));
    let copy = entry.clone();
    assert_eq!(copy.name, "c");
    assert_eq!(copy.total_time, entry.total_time);
    assert_eq!(copy.call_count, 1);
    assert_eq!(copy.min_time, entry.min_time);
    assert_eq!(copy.max_time, entry.max_time);
}

#[test]
fn profiler_records_one_entry_per_name() {
    let mut p = Profiler::new();
    assert!(p.is_enabled());
    assert!(p.get_entry("physics").is_none());
    p.record("physics".to_string(), Duration::from_millis(4));
    p.record("render".to_string(), Duration::from_millis(9));
    p.record("physics".to_string(), Duration::from_millis(2));
    let names: Vec<&str> = p.entries().iter().map(|e| e.name.as_str()).collect();
    assert_eq!(names, vec!["physics", "render"]);
    let physics = p.get_entry("physics").unwrap();
    assert_eq!(physics.call_count, 2);
    assert_eq!(physics.total_time, Duration::from_millis(6));
    assert_eq!(physics.min_time, Duration::from_millis(2));
    assert_eq!(physics.max_time, Duration::from_millis(4));
    assert_eq!(p.get_entry("render").unwrap().call_count, 1);
    assert!(p.get_entry("audio").is_none());
}

#[test]
fn profiler_reset_entry_keeps_name_and_place() {
    let mut p = Profiler::default();
    p.record("a".to_string(), Duration::from_millis(1));
    p.record("b".to_string(), Duration::from_millis(2));
    p.reset_entry("a");
    let a = p.get_entry("a").unwrap();
    assert_eq!(a.call_count, 0);
    assert_eq!(a.total_time, Duration::ZERO);
    assert_eq!(a.min_time, Duration::MAX);
    assert_eq!(a.max_time, Duration::ZERO);
    assert_eq!(p.entries()[0].name, "a");
    assert_eq!(p.get_entry("b").unwrap().call_count, 1);
    p.reset_entry("missing");
    assert_eq!(p.entries().len(), 2);
    p.reset();
    assert!(p.entries().is_empty());
}

#[test]
fn profiler_try_record_and_enable() {
    let mut p = Profiler::new();
    assert!(p.try_record("x".to_string(), Duration::MAX));
    assert!(!p.try_record("x".to_string(), Duration::from_nanos(1)));
    assert_eq!(p.get_entry("x").unwrap().call_count, 1);
    assert!(p.try_record("y".to_string(), Duration::from_nanos(1)));
    p.set_enabled(false);
    assert!(!p.is_enabled());
    assert_eq!(p.entries().len(), 2);
}
