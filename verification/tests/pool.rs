use mycqu_gateway::pool::{connect, connect_all, plan_generation, PoolStep, ProxiedClientProvider, RefreshError};
use mycqu_gateway::endpoint::Endpoint;

const SECOND: u64 = 1_000_000_000;

fn credentials() -> (Option<String>, Option<String>) {
    (Some("user".to_string()), Some("secret".to_string()))
}

fn listing(items: &[&str]) -> Vec<String> {
    items.iter().map(|item| item.to_string()).collect()
}

fn refreshed(items: &[&str], now: u64) -> ProxiedClientProvider {
    let (username, password) = credentials();
    let mut pool = ProxiedClientProvider::new();
    let outcome = pool.refresh_clients_at(&listing(items), &username, &password, now);
    assert!(outcome.is_ok(), "{:?}", outcome);
    pool
}

#[test]
fn new_pool_is_stale_and_serves_nobody() {
    let pool = ProxiedClientProvider::new();
    assert_eq!(pool.client_count(), 0);
    assert_eq!(pool.deadline(), 0);
    assert!(pool.needs_refresh_at(0));
    assert!(pool.needs_refresh());
    assert!(pool.select_at(0).is_none());
    assert!(pool.select().is_none());
    assert!(pool.client_at(0).is_none());
}

#[test]
fn deadline_is_ten_seconds_before_the_shortest_lifetime_ends() {
    let pool = refreshed(&["10.0.0.1:80,100"], 7 * SECOND);
    assert_eq!(pool.deadline(), (7 + 90) as u128 * SECOND as u128);
    assert!(pool.select_at(7 * SECOND).is_some());
    assert!(pool.select_at(97 * SECOND - 1).is_some());
    assert!(pool.select_at(97 * SECOND).is_none());
}

#[test]
fn deadline_is_never_less_than_ten_seconds_ahead() {
    let pool = refreshed(&["10.0.0.1:80,15", "10.0.0.2:80,40", "10.0.0.3:80,100"], 5 * SECOND);
    assert_eq!(pool.deadline(), 15 * SECOND as u128);
    assert_eq!(pool.client_count(), 3);
    assert!(!pool.needs_refresh_at(15 * SECOND - 1));
    assert!(pool.needs_refresh_at(15 * SECOND));
    let short = refreshed(&["10.0.0.1:80,0"], 0);
    assert_eq!(short.deadline(), 10 * SECOND as u128);
}

#[test]
fn largest_lifetime_does_not_wrap_the_deadline() {
    let pool = refreshed(&["10.0.0.1:80,18446744073709551615"], u64::MAX);
    assert_eq!(pool.deadline(), u64::MAX as u128 + (u64::MAX - 10) as u128 * SECOND as u128);
    assert!(pool.select_at(u64::MAX).is_some());
}

#[test]
fn generation_holds_one_client_per_valid_entry_in_order() {
    let pool = refreshed(&[" 10.0.0.1:80 ,30", "not an entry", "10.0.0.2:8080,60", "10.0.0.3:80,x"], 0);
    assert_eq!(pool.client_count(), 2);
    assert_eq!(pool.client_at(0).unwrap().address(), "10.0.0.1:80");
    assert_eq!(pool.client_at(1).unwrap().address(), "10.0.0.2:8080");
    assert!(pool.client_at(2).is_none());
    let _client = pool.client_at(0).unwrap().client();
}

#[test]
fn selection_picks_clients_of_the_generation_and_reaches_each() {
    let pool = refreshed(&["10.0.0.1:80,100", "10.0.0.2:80,100"], 0);
    let mut first = 0;
    let mut second = 0;
    for _ in 0..400 {
        let handle = pool.select_at(SECOND).unwrap();
        match handle.address() {
            "10.0.0.1:80" => first += 1,
            "10.0.0.2:80" => second += 1,
            other => panic!("a stranger was picked: {}", other),
        }
    }
    assert!(first > 0 && second > 0);
    assert!(pool.select().is_some());
    assert!(!pool.needs_refresh());
}

#[test]
fn fresh_pool_serves_without_a_refresh() {
    let mut pool = refreshed(&["10.0.0.1:80,100"], 0);
    match pool.get_random_client_at(1, SECOND) {
        PoolStep::Ready(handle) => assert_eq!(handle.address(), "10.0.0.1:80"),
        _ => panic!("a fresh pool asked for a refresh"),
    }
    assert!(pool.finish_refresh().is_empty());
    assert!(matches!(pool.get_random_client(2), PoolStep::Ready(_)));
}

#[test]
fn stale_pool_is_refreshed_by_one_caller_and_serves_all() {
    let (username, password) = credentials();
    let mut pool = ProxiedClientProvider::new();
    let mut refreshes = 0;
    let mut waits = 0;
    for ticket in 0..6u64 {
        match pool.get_random_client_at(ticket, ticket) {
            PoolStep::Refresh => refreshes += 1,
            PoolStep::Wait => waits += 1,
            PoolStep::Ready(_) => panic!("an empty pool served"),
        }
    }
    assert_eq!((refreshes, waits), (1, 5));
    assert!(pool.needs_refresh_at(10));
    assert!(pool.refresh_clients_at(&listing(&["junk", "10.0.0.9:80,60"]), &username, &password, 10).is_ok());
    assert_eq!(pool.finish_refresh(), vec![0, 1, 2, 3, 4, 5]);
    for _ in 0..6 {
        assert_eq!(pool.select_at(11).unwrap().address(), "10.0.0.9:80");
    }
    // the next caller finds the pool fresh; once it is stale again, it leads
    assert!(matches!(pool.get_random_client_at(7, 12), PoolStep::Ready(_)));
    assert!(matches!(pool.get_random_client_at(8, 10 + 50 * SECOND), PoolStep::Refresh));
    assert!(matches!(pool.get_random_client_at(9, 10 + 50 * SECOND), PoolStep::Wait));
}

#[test]
fn double_check_skips_a_refresh_that_has_landed() {
    let (username, password) = credentials();
    let mut pool = ProxiedClientProvider::new();
    assert!(matches!(pool.get_random_client_at(1, 0), PoolStep::Refresh));
    assert!(pool.refresh_clients_at(&listing(&["10.0.0.1:80,60"]), &username, &password, 0).is_ok());
    assert_eq!(pool.finish_refresh(), vec![1]);
    // a caller that saw the pool stale before the refresh landed asks again
    assert!(!pool.needs_refresh_at(1));
}

#[test]
fn failed_refresh_keeps_the_generation_but_a_stale_one_serves_nobody() {
    let (username, password) = credentials();
    let mut pool = refreshed(&["10.0.0.1:80,15"], 0);
    let stale_at = 11 * SECOND;
    assert!(matches!(pool.get_random_client_at(1, stale_at), PoolStep::Refresh));
    let outcome = pool.refresh_clients_at(&listing(&["no endpoint here", "nor,here"]), &username, &password, stale_at);
    assert!(matches!(outcome, Err(RefreshError::NoValidEndpoint)));
    assert_eq!(pool.finish_refresh(), vec![1]);
    assert_eq!(pool.client_count(), 1);
    assert_eq!(pool.deadline(), 10 * SECOND as u128);
    assert!(pool.select_at(stale_at).is_none());
}

#[test]
fn failed_refresh_does_not_clear_a_fresh_generation() {
    let (username, password) = credentials();
    let mut pool = refreshed(&["10.0.0.1:80,100"], 0);
    assert!(matches!(pool.refresh_clients_at(&Vec::new(), &username, &password, SECOND), Err(RefreshError::NoEndpoints)));
    assert!(matches!(
        pool.refresh_clients_at(&listing(&["bad host:1,5"]), &username, &password, SECOND),
        Err(RefreshError::InvalidProxy { .. })
    ));
    assert_eq!(pool.client_count(), 1);
    assert_eq!(pool.select_at(SECOND).unwrap().address(), "10.0.0.1:80");
}

#[test]
fn refresh_failures_come_in_their_order() {
    let (username, password) = credentials();
    let mut pool = ProxiedClientProvider::new();
    let none: Option<String> = None;
    let empty: Vec<String> = Vec::new();
    let some = listing(&["10.0.0.1:80,60"]);
    // an empty listing is refused before the credentials are looked at
    assert!(matches!(pool.refresh_clients_at(&empty, &none, &none, 0), Err(RefreshError::NoEndpoints)));
    match pool.refresh_clients_at(&some, &none, &none, 0) {
        Err(RefreshError::MissingSetting { name }) => assert_eq!(name, "PROXY_USERNAME"),
        other => panic!("{:?}", other),
    }
    match pool.refresh_clients_at(&some, &username, &none, 0) {
        Err(RefreshError::MissingSetting { name }) => assert_eq!(name, "PROXY_PASSWORD"),
        other => panic!("{:?}", other),
    }
    // the credentials are looked at before the entries are read
    match pool.refresh_clients_at(&listing(&["junk"]), &none, &password, 0) {
        Err(RefreshError::MissingSetting { name }) => assert_eq!(name, "PROXY_USERNAME"),
        other => panic!("{:?}", other),
    }
    assert!(matches!(pool.refresh_clients_at(&listing(&["junk"]), &username, &password, 0), Err(RefreshError::NoValidEndpoint)));
    // the first address that makes no proxy ends the attempt
    match pool.refresh_clients_at(&listing(&["10.0.0.1:80,60", "a b,5", "c d,5"]), &username, &password, 0) {
        Err(RefreshError::InvalidProxy { url, .. }) => assert_eq!(url, "http://a b"),
        other => panic!("{:?}", other),
    }
    match pool.refresh_clients(&listing(&[",5"]), &username, &password) {
        Err(RefreshError::InvalidProxy { url, .. }) => assert_eq!(url, "http://"),
        other => panic!("{:?}", other),
    }
    assert_eq!(pool.client_count(), 0);
    assert!(pool.refresh_clients(&some, &username, &password).is_ok());
    assert_eq!(pool.client_count(), 1);
    assert!(pool.deadline() >= 50 * SECOND as u128);
    assert!(pool.now() < 3600 * SECOND);
}

#[test]
fn plan_reads_the_listing_after_the_checks() {
    assert!(matches!(plan_generation(&Vec::new(), true, true), Err(RefreshError::NoEndpoints)));
    assert!(matches!(plan_generation(&listing(&["a,1"]), false, true), Err(RefreshError::MissingSetting { .. })));
    assert!(matches!(plan_generation(&listing(&["a,1"]), true, false), Err(RefreshError::MissingSetting { .. })));
    assert!(matches!(plan_generation(&listing(&["a"]), true, true), Err(RefreshError::NoValidEndpoint)));
    let plan = plan_generation(&listing(&["a,1", "b", "c,3"]), true, true).unwrap();
    assert_eq!(plan.len(), 2);
    assert_eq!(plan[1].address, "c");
    assert_eq!(plan[1].lifetime, 3);
}

#[test]
fn connect_binds_a_client_to_the_address() {
    let endpoint = Endpoint { address: "10.0.0.1:8080".to_string(), lifetime: 5 };
    let handle = connect(&endpoint, "user", "secret").unwrap();
    assert_eq!(handle.address(), "10.0.0.1:8080");
    assert_eq!(handle.duplicate().address(), "10.0.0.1:8080");
    let bad = Endpoint { address: "exa mple:80".to_string(), lifetime: 5 };
    match connect(&bad, "user", "secret") {
        Err(RefreshError::InvalidProxy { url, reason }) => {
            assert_eq!(url, "http://exa mple:80");
            assert!(!reason.is_empty());
        }
        _ => panic!("a proxy was made for a host with a space in it"),
    }
}

#[test]
fn connect_all_stops_at_the_first_failure() {
    let good = |address: &str| Endpoint { address: address.to_string(), lifetime: 5 };
    let handles = connect_all(&vec![good("10.0.0.1:1"), good("10.0.0.2:2")], "u", "p").unwrap();
    assert_eq!(handles.len(), 2);
    assert_eq!(handles[0].address(), "10.0.0.1:1");
    assert_eq!(handles[1].address(), "10.0.0.2:2");
    assert!(connect_all(&Vec::new(), "u", "p").unwrap().is_empty());
    match connect_all(&vec![good("10.0.0.1:1"), good("x y"), good("z w")], "u", "p") {
        Err(RefreshError::InvalidProxy { url, .. }) => assert_eq!(url, "http://x y"),
        _ => panic!("a proxy was made for a host with a space in it"),
    }
}

#[test]
fn refresh_error_messages() {
    assert_eq!(RefreshError::NoEndpoints.message(), "No proxies fetched from API");
    assert_eq!(RefreshError::NoValidEndpoint.message(), "Failed to parse any valid proxies from API response");
    assert_eq!(RefreshError::MissingSetting { name: "PROXY_USERNAME".to_string() }.message(), "PROXY_USERNAME not set");
    assert_eq!(RefreshError::Directory { reason: "timed out".to_string() }.message(), "timed out");
    assert_eq!(
        RefreshError::InvalidProxy { url: "http://a b".to_string(), reason: "builder error".to_string() }.message(),
        "Invalid proxy URL 'http://a b': builder error"
    );
    assert_eq!(
        RefreshError::ClientBuild { reason: "no tls".to_string() }.message(),
        "Failed to create proxied client: no tls"
    );
}
