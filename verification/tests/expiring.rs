use mycqu_gateway::clock::{deadline_after, outlives, Clock};
use mycqu_gateway::expiring::ExpiringDashMap;

const SECOND: u64 = 1_000_000_000;

#[test]
fn new_store_is_empty_and_keeps_its_interval() {
    let store = ExpiringDashMap::new(30 * SECOND);
    assert_eq!(store.check_interval(), 30 * SECOND);
    assert_eq!(store.get_at("alice", 0), None);
    assert_eq!(store.get("alice"), None);
}

#[test]
fn value_is_visible_until_its_deadline() {
    let mut store = ExpiringDashMap::new(SECOND);
    store.insert_at("alice".to_string(), 7, 100, 50);
    assert_eq!(store.get_at("alice", 100), Some(7));
    assert_eq!(store.get_at("alice", 149), Some(7));
    assert_eq!(store.get_at("alice", 150), None);
    assert_eq!(store.get_at("alice", 151), None);
    assert_eq!(store.get_at("alice", u64::MAX), None);
    assert_eq!(store.get_at("bob", 100), None);
}

#[test]
fn expired_entry_is_absent_without_a_sweep_and_after_one() {
    let mut store = ExpiringDashMap::new(SECOND);
    store.insert_at("k".to_string(), 1, 0, 10);
    assert_eq!(store.get_at("k", 10), None);
    store.purge_expired_at(10);
    assert_eq!(store.get_at("k", 10), None);
    assert_eq!(store.get_at("k", 0), None);
}

#[test]
fn zero_ttl_is_never_visible() {
    let mut store = ExpiringDashMap::new(SECOND);
    store.insert_at("k".to_string(), 1, 5, 0);
    assert_eq!(store.get_at("k", 5), None);
    assert_eq!(store.get_at("k", 4), Some(1));
}

#[test]
fn insert_overwrites_value_and_deadline() {
    let mut store = ExpiringDashMap::new(SECOND);
    store.insert_at("k".to_string(), 1, 0, 100);
    store.insert_at("k".to_string(), 2, 10, 20);
    assert_eq!(store.get_at("k", 29), Some(2));
    assert_eq!(store.get_at("k", 30), None);
}

#[test]
fn remove_returns_the_value_even_when_stale() {
    let mut store = ExpiringDashMap::new(SECOND);
    store.insert_at("fresh".to_string(), 1, 0, 100);
    store.insert_at("stale".to_string(), 2, 0, 1);
    assert_eq!(store.remove("fresh"), Some(1));
    assert_eq!(store.remove("stale"), Some(2));
    assert_eq!(store.remove("fresh"), None);
    assert_eq!(store.remove("never"), None);
    assert_eq!(store.get_at("fresh", 0), None);
}

#[test]
fn sweep_drops_entries_at_or_past_their_deadline_only() {
    let mut store = ExpiringDashMap::new(SECOND);
    store.insert_at("a".to_string(), 1, 0, 10);
    store.insert_at("b".to_string(), 2, 0, 11);
    store.insert_at("c".to_string(), 3, 0, 9);
    store.purge_expired_at(10);
    assert_eq!(store.remove("a"), None);
    assert_eq!(store.remove("c"), None);
    assert_eq!(store.remove("b"), Some(2));
}

#[test]
fn sweep_does_not_change_what_later_reads_see() {
    let mut swept = ExpiringDashMap::new(SECOND);
    let mut kept = ExpiringDashMap::new(SECOND);
    for store in [&mut swept, &mut kept] {
        store.insert_at("a".to_string(), 1, 0, 10);
        store.insert_at("b".to_string(), 2, 0, 20);
    }
    swept.purge_expired_at(15);
    for at in [15u64, 19, 20, 25] {
        assert_eq!(swept.get_at("a", at), kept.get_at("a", at));
        assert_eq!(swept.get_at("b", at), kept.get_at("b", at));
    }
}

#[test]
fn deadline_never_wraps() {
    assert_eq!(deadline_after(u64::MAX, u64::MAX), 2 * (u64::MAX as u128));
    assert_eq!(deadline_after(3, 4), 7);
    let mut store = ExpiringDashMap::new(SECOND);
    store.insert_at("k".to_string(), 9, u64::MAX, 1);
    assert_eq!(store.get_at("k", u64::MAX), Some(9));
}

#[test]
fn outlives_is_strict() {
    assert!(outlives(11, 10));
    assert!(!outlives(10, 10));
    assert!(!outlives(0, 0));
}

#[test]
fn clock_does_not_run_backwards() {
    let clock = Clock::new();
    let first = clock.now();
    let second = clock.now();
    assert!(first <= second);
}

#[test]
fn store_operations_at_the_present_time() {
    let mut store = ExpiringDashMap::new(SECOND);
    store.insert("long".to_string(), 5, 3600 * SECOND);
    store.insert("gone".to_string(), 6, 0);
    assert_eq!(store.get("long"), Some(5));
    assert_eq!(store.get("gone"), None);
    store.purge_expired();
    assert_eq!(store.remove("gone"), None);
    assert_eq!(store.remove("long"), Some(5));
    assert!(store.now() < 3600 * SECOND);
}
