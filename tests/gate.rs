use pomyu::{check, notification_event};

#[test]
fn one_second_ticks_fire_once_per_boundary() {
    let mut fired: Vec<(u64, u64)> = Vec::new();
    let mut elapsed: u64 = 0;
    while elapsed < 2_400_000 {
        let after = elapsed + 1000;
        if let Some(b) = check(1500, elapsed, after) {
            fired.push((after, b));
        }
        elapsed = after;
    }
    assert_eq!(fired, vec![(1_500_000, 0), (1_800_000, 1), (2_100_000, 2), (2_400_000, 3)]);
}

#[test]
fn no_fire_between_boundaries() {
    assert_eq!(check(1500, 1_500_000, 1_501_000), None);
    assert_eq!(check(1500, 1_799_000, 1_799_999), None);
    assert_eq!(check(1500, 1_000_000, 1_499_999), None);
}

#[test]
fn fires_on_first_crossing_after_late_tick() {
    assert_eq!(check(1500, 1_400_000, 1_600_000), Some(0));
    assert_eq!(check(1500, 1_700_000, 2_000_000), Some(1));
}

#[test]
fn unchanged_elapsed_never_fires() {
    for e in [0u64, 1_500_000, 1_800_000, 2_000_000] {
        assert_eq!(check(1500, e, e), None);
    }
}

#[test]
fn repeated_pair_fires_only_on_transition() {
    let first = check(1500, 1_499_000, 1_500_000);
    let again = check(1500, 1_500_000, 1_500_000);
    assert_eq!(first, Some(0));
    assert_eq!(again, None);
}

#[test]
fn zero_length_period_is_over_from_the_start() {
    assert_eq!(check(0, 0, 1000), None);
    assert_eq!(check(0, 299_000, 300_000), Some(1));
}

#[test]
fn first_boundary_message() {
    let e = notification_event("Focus", 0);
    assert_eq!(e.title, "Done!");
    assert_eq!(e.body, "Focus is over");
}

#[test]
fn ten_minutes_overdue_message() {
    let e = notification_event("Focus", 2);
    assert_eq!(e.title, "Done!");
    assert_eq!(e.body, "Focus has been over for 10 minutes");
}

#[test]
fn five_minutes_overdue_message() {
    let e = notification_event("Small break", 1);
    assert_eq!(e.body, "Small break has been over for 5 minutes");
}
