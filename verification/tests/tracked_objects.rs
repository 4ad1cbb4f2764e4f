use std::time::Duration;
use v2x::tracked_objects::TrackedObjects;

fn sorted(mut v: Vec<i32>) -> Vec<i32> {
    v.sort();
    v
}

#[test]
fn insert_replaces_the_item_of_an_id() {
    let mut objects = TrackedObjects::new();
    objects.insert(1, 10);
    objects.insert(2, 20);
    objects.insert(1, 11);
    assert_eq!(sorted(objects.values().into_iter().copied().collect()), vec![11, 20]);
}

#[test]
fn clean_expired_at_drops_what_was_not_seen_in_time() {
    let mut objects = TrackedObjects::new();
    objects.insert_at(1, 10, 1_000);
    objects.insert_at(2, 20, 2_000);
    objects.insert_at(3, 30, 2_500);
    objects.clean_expired_at(500, 2_500);
    assert_eq!(sorted(objects.values().into_iter().copied().collect()), vec![20, 30]);
    // An object stamped after `now` counts as just seen.
    objects.insert_at(4, 40, 9_000);
    objects.clean_expired_at(0, 2_500);
    assert_eq!(sorted(objects.values().into_iter().copied().collect()), vec![30, 40]);
    // Cleaning twice changes nothing more.
    objects.clean_expired_at(0, 2_500);
    assert_eq!(sorted(objects.values().into_iter().copied().collect()), vec![30, 40]);
}

#[test]
fn clean_expired_keeps_recent_objects() {
    let mut objects = TrackedObjects::new();
    objects.insert(5, 50);
    objects.clean_expired(Duration::from_secs(3600).as_nanos());
    assert_eq!(objects.values(), vec![&50]);
    let start = std::time::Instant::now();
    while start.elapsed() < Duration::from_millis(5) {}
    objects.clean_expired(Duration::from_millis(1).as_nanos());
    assert!(objects.values().is_empty());
}

#[test]
fn a_new_collection_is_empty() {
    let objects: TrackedObjects<String> = TrackedObjects::new();
    assert!(objects.values().is_empty());
}

#[test]
fn the_clock_never_goes_back_before_a_given_moment() {
    let mut objects = TrackedObjects::new();
    // A moment far in the future: the real clock reads earlier, so this moment is used.
    objects.insert_at(1, 10, 1_000_000_000_000_000);
    objects.insert(2, 20);
    // Both were seen at that moment; nothing has expired then.
    objects.clean_expired(0);
    assert_eq!(sorted(objects.values().into_iter().copied().collect()), vec![10, 20]);
    objects.clean_expired_at(5, 1_000_000_000_000_010);
    assert!(objects.values().is_empty());
}

#[test]
fn a_longer_timeout_keeps_at_least_as_much() {
    let build = || {
        let mut objects = TrackedObjects::new();
        objects.insert_at(1, 10, 100);
        objects.insert_at(2, 20, 50);
        objects.insert_at(3, 30, 0);
        objects
    };
    let mut short = build();
    short.clean_expired_at(10, 100);
    let mut long = build();
    long.clean_expired_at(60, 100);
    let mut zero = build();
    zero.clean_expired_at(0, 100);
    assert_eq!(sorted(short.values().into_iter().copied().collect()), vec![10]);
    assert_eq!(sorted(long.values().into_iter().copied().collect()), vec![10, 20]);
    assert_eq!(sorted(zero.values().into_iter().copied().collect()), vec![10]);
}
