use clacks::time::{DateTime, Duration};

#[test]
fn durations_in_millis() {
    assert_eq!(Duration::new_from_millis(7).as_millis(), 7);
    assert_eq!(Duration::new_from_seconds(2).as_millis(), 2_000);
    assert_eq!(Duration::new_from_minutes(2).as_millis(), 120_000);
    assert_eq!(Duration::new_from_hours(1).as_millis(), 3_600_000);
    assert_eq!(Duration::new_from_days(1).as_millis(), 86_400_000);
}

#[test]
fn instants_and_elapsed_time() {
    let start = DateTime::new_from_unix_timestamp(10);
    assert_eq!(start.unix_millis(), 10_000);
    let later = start.plus(&Duration::new_from_millis(1_500));
    assert_eq!(later.unix_millis(), 11_500);
    assert!(later.is_at_least_after(&start, &Duration::new_from_millis(1_500)));
    assert!(!later.is_at_least_after(&start, &Duration::new_from_millis(1_501)));
    // an earlier instant is never after
    assert!(!start.is_at_least_after(&later, &Duration::new_from_millis(0)));
    assert_eq!(DateTime::new_from_unix_millis(-5).unix_millis(), -5);
}

#[test]
fn clock_reads_after_epoch() {
    assert!(DateTime::now().unix_millis() > 1_600_000_000_000);
}
