use nex_relay::registry::Registry;
use nex_relay::router::subject_matches;

fn b(s: &str) -> Vec<u8> {
    s.as_bytes().to_vec()
}

fn count_of(ids: &[u64], id: u64) -> usize {
    ids.iter().filter(|x| **x == id).count()
}

#[test]
fn exact_match_is_case_sensitive() {
    let subs = vec![b("market.btc-usd.trades")];
    assert!(subject_matches(&subs, &b("market.btc-usd.trades")));
    assert!(!subject_matches(&subs, &b("MARKET.BTC-USD.TRADES")));
    assert!(!subject_matches(&subs, &b("market.btc-usd")));
}

#[test]
fn wildcard_token_matches_every_subject() {
    let subs = vec![b("*")];
    assert!(subject_matches(&subs, &b("market.btc-usd.trades")));
    assert!(subject_matches(&subs, &b("anything.at.all")));
    assert!(subject_matches(&subs, &b("")));
}

#[test]
fn no_prefix_or_glob_matching() {
    let subs = vec![b("market.*")];
    assert!(!subject_matches(&subs, &b("market.btc-usd.trades")));
    assert!(subject_matches(&subs, &b("market.*")));
    let empty: Vec<Vec<u8>> = Vec::new();
    assert!(!subject_matches(&empty, &b("market.btc-usd.trades")));
}

#[test]
fn register_unregister_lifecycle() {
    let mut reg = Registry::new();
    assert_eq!(reg.client_count(), 0);
    reg.register(7);
    assert!(reg.is_registered(7));
    assert_eq!(reg.client_count(), 1);
    reg.unregister(7);
    assert!(!reg.is_registered(7));
    assert_eq!(reg.client_count(), 0);
    // idempotent cleanup: a second unregister is a no-op, not an error
    reg.unregister(7);
    assert_eq!(reg.client_count(), 0);
}

#[test]
fn register_same_identity_replaces_entry() {
    let mut reg = Registry::new();
    reg.register(3);
    assert!(reg.add_subscription(3, b("market.btc-usd.trades")));
    reg.register(3);
    assert_eq!(reg.client_count(), 1);
    // the replaced entry starts with an empty subscription list
    let ids = reg.recipients(&b("market.btc-usd.trades"));
    assert!(ids.is_empty());
}

#[test]
fn add_subscription_to_absent_client_is_noop() {
    let mut reg = Registry::new();
    assert!(!reg.add_subscription(42, b("market.btc-usd.trades")));
    assert_eq!(reg.client_count(), 0);
}

#[test]
fn recipients_exact_and_wildcard_only() {
    let mut reg = Registry::new();
    reg.register(1);
    reg.register(2);
    reg.register(3);
    reg.register(4);
    reg.add_subscription(1, b("market.btc-usd.trades"));
    reg.add_subscription(2, b("*"));
    reg.add_subscription(3, b("market.eth-usd.trades"));
    // client 4 subscribed to nothing
    let ids = reg.recipients(&b("market.btc-usd.trades"));
    assert_eq!(count_of(&ids, 1), 1);
    assert_eq!(count_of(&ids, 2), 1);
    assert_eq!(count_of(&ids, 3), 0);
    assert_eq!(count_of(&ids, 4), 0);
    assert_eq!(ids.len(), 2);
}

#[test]
fn unregistered_client_receives_nothing() {
    let mut reg = Registry::new();
    reg.register(1);
    reg.register(2);
    reg.add_subscription(1, b("market.btc-usd.trades"));
    reg.add_subscription(2, b("market.btc-usd.trades"));
    reg.unregister(1);
    let ids = reg.recipients(&b("market.btc-usd.trades"));
    assert_eq!(count_of(&ids, 1), 0);
    assert_eq!(count_of(&ids, 2), 1);
}

#[test]
fn duplicate_subscription_delivers_once_per_broadcast() {
    let mut reg = Registry::new();
    reg.register(9);
    reg.add_subscription(9, b("market.btc-usd.trades"));
    reg.add_subscription(9, b("market.btc-usd.trades"));
    let ids = reg.recipients(&b("market.btc-usd.trades"));
    assert_eq!(count_of(&ids, 9), 1);
    assert_eq!(ids.len(), 1);
    // subject plus wildcard still delivers once
    reg.add_subscription(9, b("*"));
    let ids = reg.recipients(&b("market.btc-usd.trades"));
    assert_eq!(count_of(&ids, 9), 1);
}

#[test]
fn interleaved_operations_keep_registry_consistent() {
    let mut reg = Registry::new();
    let subject = b("market.btc-usd.trades");
    for i in 0..150u64 {
        reg.register(i);
        if i % 2 == 0 {
            reg.add_subscription(i, subject.clone());
        }
        if i % 3 == 0 {
            reg.add_subscription(i, b("*"));
        }
        if i % 5 == 0 {
            reg.unregister(i);
        }
        // broadcasts interleave with registrations and removals
        let ids = reg.recipients(&subject);
        for id in &ids {
            assert!(reg.is_registered(*id));
            assert_eq!(count_of(&ids, *id), 1);
        }
    }
    let live = (0..150u64).filter(|i| i % 5 != 0).count();
    assert_eq!(reg.client_count(), live);
    let ids = reg.recipients(&subject);
    for i in 0..150u64 {
        let expect = i % 5 != 0 && (i % 2 == 0 || i % 3 == 0);
        assert_eq!(count_of(&ids, i), if expect { 1 } else { 0 }, "client {}", i);
    }
}
