use mycqu_gateway::coalescer::{RequestCoalescer, Role};

#[test]
fn first_caller_leads_and_the_rest_wait() {
    let mut coalescer = RequestCoalescer::new();
    assert_eq!(coalescer.execute("k".to_string(), 10), Role::Leader);
    for ticket in 11..15u64 {
        assert_eq!(coalescer.execute("k".to_string(), ticket), Role::Waiter);
    }
    assert!(coalescer.in_flight("k"));
    assert_eq!(coalescer.complete("k"), vec![10, 11, 12, 13, 14]);
    assert!(!coalescer.in_flight("k"));
}

#[test]
fn caller_after_completion_leads_anew() {
    let mut coalescer = RequestCoalescer::new();
    assert_eq!(coalescer.execute("k".to_string(), 1), Role::Leader);
    assert_eq!(coalescer.execute("k".to_string(), 2), Role::Waiter);
    assert_eq!(coalescer.complete("k"), vec![1, 2]);
    assert_eq!(coalescer.execute("k".to_string(), 3), Role::Leader);
    assert_eq!(coalescer.complete("k"), vec![3]);
}

#[test]
fn different_keys_do_not_block_each_other() {
    let mut coalescer = RequestCoalescer::new();
    assert_eq!(coalescer.execute("slow".to_string(), 1), Role::Leader);
    assert_eq!(coalescer.execute("other".to_string(), 2), Role::Leader);
    assert_eq!(coalescer.complete("other"), vec![2]);
    assert!(coalescer.in_flight("slow"));
    assert_eq!(coalescer.execute("slow".to_string(), 3), Role::Waiter);
    assert_eq!(coalescer.complete("slow"), vec![1, 3]);
}

#[test]
fn completing_a_key_that_is_not_in_flight_returns_nobody() {
    let mut coalescer = RequestCoalescer::new();
    assert_eq!(coalescer.complete("k"), Vec::<u64>::new());
    assert!(!coalescer.in_flight("k"));
}

#[test]
fn lone_leader_is_its_own_only_recipient() {
    let mut coalescer = RequestCoalescer::new();
    assert_eq!(coalescer.execute("k".to_string(), 42), Role::Leader);
    assert_eq!(coalescer.complete("k"), vec![42]);
}

#[test]
fn keys_are_compared_by_their_text() {
    let mut coalescer = RequestCoalescer::new();
    assert_eq!(coalescer.execute("a".to_string(), 1), Role::Leader);
    assert_eq!(coalescer.execute(format!("{}", 'a'), 2), Role::Waiter);
    assert_eq!(coalescer.execute("A".to_string(), 3), Role::Leader);
    assert_eq!(coalescer.execute("".to_string(), 4), Role::Leader);
}
