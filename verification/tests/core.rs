use brainfork::{AccessLevel, Counter, ServerCounts};

#[test]
fn from_access_byte_decodes_stored_tiers() {
    assert_eq!(AccessLevel::from_access_byte(0), Some(AccessLevel::Administrator));
    assert_eq!(AccessLevel::from_access_byte(1), Some(AccessLevel::Developer));
    assert_eq!(AccessLevel::from_access_byte(2), Some(AccessLevel::Basic));
    assert_eq!(AccessLevel::from_access_byte(3), None);
    assert_eq!(AccessLevel::from_access_byte(255), None);
}

#[test]
fn access_byte_round_trips_for_storable_tiers() {
    for level in [AccessLevel::Administrator, AccessLevel::Developer, AccessLevel::Basic] {
        assert_eq!(AccessLevel::from_access_byte(level.access_byte()), Some(level));
    }
}

#[test]
fn runtime_limits_match_configuration() {
    assert_eq!(AccessLevel::Administrator.get_runtime_limits(), (usize::MAX, usize::MAX));
    assert_eq!(AccessLevel::Developer.get_runtime_limits(), (10000, 128000));
    assert_eq!(AccessLevel::Basic.get_runtime_limits(), (5000, 64000));
    assert_eq!(AccessLevel::Unauthenticated.get_runtime_limits(), (500, 32000));
}

#[test]
fn runtime_limits_ordered_by_privilege() {
    let admin = AccessLevel::Administrator.get_runtime_limits();
    let dev = AccessLevel::Developer.get_runtime_limits();
    let basic = AccessLevel::Basic.get_runtime_limits();
    let default = AccessLevel::Unauthenticated.get_runtime_limits();
    assert!(admin.0 >= dev.0 && dev.0 >= basic.0 && basic.0 >= default.0);
    assert!(admin.1 >= dev.1 && dev.1 >= basic.1 && basic.1 >= default.1);
}

#[test]
fn level_names() {
    assert_eq!(AccessLevel::Administrator.name(), "Administrator");
    assert_eq!(AccessLevel::Developer.name(), "Developer");
    assert_eq!(AccessLevel::Basic.name(), "Basic");
    assert_eq!(AccessLevel::Unauthenticated.name(), "Unauthenticated");
}

#[test]
fn fresh_ledger_is_zero() {
    let counts = ServerCounts::new();
    assert_eq!(counts.snapshot(), (0, 0, 0, 0, 0));
}

#[test]
fn increment_returns_new_total_and_touches_one_counter() {
    let mut counts = ServerCounts::new();
    assert_eq!(counts.increment(Counter::Instructions, 7), 7);
    assert_eq!(counts.increment(Counter::Instructions, 5), 12);
    assert_eq!(counts.increment(Counter::StatusHits, 1), 1);
    assert_eq!(counts.snapshot(), (0, 12, 0, 0, 1));
}

#[test]
fn counters_are_monotonic_short_of_wraparound() {
    let mut counts = ServerCounts::new();
    let mut last = 0;
    for delta in [3u64, 0, 19, 1, 250] {
        let next = counts.increment(Counter::BytesReturned, delta);
        assert!(next >= last);
        assert_eq!(next, last + delta);
        last = next;
    }
}

#[test]
fn counter_wraparound_is_accepted() {
    let mut counts = ServerCounts::new();
    counts.increment(Counter::RuntimeNs, u64::MAX);
    assert_eq!(counts.increment(Counter::RuntimeNs, 3), 2);
}
