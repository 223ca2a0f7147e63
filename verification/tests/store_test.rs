use sidedns_core::store::InnerRuleStore;
use sidedns_core::{DnsRule, IpAddress, RuleStore, SocketTarget};

fn rule(domain: &str, port: u16) -> DnsRule {
    DnsRule::new(
        domain.to_string(),
        SocketTarget::new(IpAddress::V4([127, 0, 0, 1]), port),
        false,
    )
}

#[test]
fn exact_persistent_resolves() {
    let mut store = InnerRuleStore::new();
    store.add(rule("api.local", 3000));
    assert_eq!(
        store.resolve("api.local").map(|r| r.target.port()),
        Some(3000)
    );
}

#[test]
fn unknown_returns_none() {
    let store = InnerRuleStore::new();
    assert!(store.resolve("ghost.local").is_none());
}

#[test]
fn ephemeral_takes_priority_over_persistent() {
    let mut store = InnerRuleStore::new();
    store.add(rule("api.local", 3000));
    store.add_ephemeral(rule("api.local", 9000));
    assert_eq!(
        store.resolve("api.local").map(|r| r.target.port()),
        Some(9000)
    );
}

#[test]
fn remove_ephemeral_falls_back_to_persistent() {
    let mut store = InnerRuleStore::new();
    store.add(rule("api.local", 3000));
    store.add_ephemeral(rule("api.local", 9000));
    store.remove_ephemeral("api.local");
    assert_eq!(
        store.resolve("api.local").map(|r| r.target.port()),
        Some(3000)
    );
}

#[test]
fn store_test_wildcard_matches_subdomain() {
    let mut store = InnerRuleStore::new();
    store.add(rule("*.local", 4000));
    assert_eq!(
        store.resolve("api.local").map(|r| r.target.port()),
        Some(4000)
    );
    assert_eq!(
        store.resolve("auth.local").map(|r| r.target.port()),
        Some(4000)
    );
}

#[test]
fn wildcard_does_not_match_root() {
    let mut store = InnerRuleStore::new();
    store.add(rule("*.local", 4000));
    assert!(store.resolve("local").is_none());
}

#[test]
fn exact_beats_wildcard() {
    let mut store = InnerRuleStore::new();
    store.add(rule("*.local", 4000));
    store.add(rule("api.local", 3000));
    assert_eq!(
        store.resolve("api.local").map(|r| r.target.port()),
        Some(3000)
    );
}

#[test]
fn ephemeral_wildcard_beats_persistent_exact() {
    let mut store = InnerRuleStore::new();
    store.add_ephemeral(rule("*.local", 9000));
    store.add(rule("api.local", 3000));
    assert_eq!(
        store.resolve("api.local").map(|r| r.target.port()),
        Some(9000)
    );
}

#[test]
fn persistent_wildcard_matches_after_exact_miss() {
    let mut store = InnerRuleStore::new();
    store.add(rule("*.local", 4000));
    store.add(rule("api.local", 3000));
    assert_eq!(
        store.resolve("auth.local").map(|r| r.target.port()),
        Some(4000)
    );
}

#[test]
fn remove_returns_none_for_unknown() {
    let mut store = InnerRuleStore::new();
    assert!(store.remove("unknown.local").is_none());
}

#[test]
fn add_replaces_existing_persistent() {
    let mut store = InnerRuleStore::new();
    store.add(rule("api.local", 3000));
    store.add(rule("api.local", 5000));
    assert_eq!(
        store.resolve("api.local").map(|r| r.target.port()),
        Some(5000)
    );
}

#[test]
fn remove_persistent_keeps_ephemeral() {
    let mut store = InnerRuleStore::new();
    store.add(rule("api.local", 3000));
    store.add_ephemeral(rule("api.local", 9000));
    store.remove("api.local");
    assert_eq!(
        store.resolve("api.local").map(|r| r.target.port()),
        Some(9000)
    );
}

#[test]
fn inner_store_is_empty_initially() {
    let store = InnerRuleStore::new();
    assert!(store.is_empty());
    assert_eq!(store.len(), 0);
}

#[test]
fn inner_store_len_counts_all_layers() {
    let mut store = InnerRuleStore::new();
    store.add(rule("api.local", 3000));
    store.add(rule("*.local", 4000));
    store.add_ephemeral(rule("tmp.local", 9000));
    assert_eq!(store.len(), 3);
    assert!(!store.is_empty());
}

#[test]
fn inner_store_remove_reduces_len() {
    let mut store = InnerRuleStore::new();
    store.add(rule("api.local", 3000));
    store.remove("api.local");
    assert_eq!(store.len(), 0);
    assert!(store.is_empty());
}

#[test]
fn inner_store_all_rules_includes_ephemeral() {
    let mut store = InnerRuleStore::new();
    store.add(rule("api.local", 3000));
    store.add_ephemeral(rule("tmp.local", 9000));
    let all: Vec<_> = store.all_rules();
    assert_eq!(all.len(), 2);
}

#[test]
fn inner_store_persistent_rules_excludes_ephemeral() {
    let mut store = InnerRuleStore::new();
    store.add(rule("api.local", 3000));
    store.add_ephemeral(rule("tmp.local", 9000));
    let persistent: Vec<_> = store.persistent_rules();
    assert_eq!(persistent.len(), 1);
    assert_eq!(persistent[0].domain, "api.local");
}

#[test]
fn inner_store_remove_wildcard_clears_wildcard_not_exact() {
    let mut store = InnerRuleStore::new();
    store.add(rule("*.local", 4000));
    store.add(rule("api.local", 3000));
    store.remove("*.local");
    // exact still resolves
    assert_eq!(
        store.resolve("api.local").map(|r| r.target.port()),
        Some(3000)
    );
    // other subdomain no longer resolves via wildcard
    assert!(store.resolve("auth.local").is_none());
}

#[test]
fn inner_store_ephemeral_wildcard_beats_persistent_wildcard() {
    let mut store = InnerRuleStore::new();
    store.add(rule("*.local", 4000));
    store.add_ephemeral(rule("*.local", 9000));
    assert_eq!(
        store.resolve("api.local").map(|r| r.target.port()),
        Some(9000)
    );
}

#[test]
fn inner_store_remove_ephemeral_wildcard_falls_back_to_persistent_wildcard() {
    let mut store = InnerRuleStore::new();
    store.add(rule("*.local", 4000));
    store.add_ephemeral(rule("*.local", 9000));
    store.remove_ephemeral("*.local");
    assert_eq!(
        store.resolve("api.local").map(|r| r.target.port()),
        Some(4000)
    );
}

#[test]
fn add_and_resolve() {
    let rules = RuleStore::new();
    rules.add(rule("api.local", 3000));
    assert_eq!(
        rules.resolve("api.local").map(|r| r.target.port()),
        Some(3000)
    );
}

#[test]
fn clone_shares_state() {
    let rules = RuleStore::new();
    let clone = rules.clone();
    rules.add(rule("api.local", 3000));
    assert_eq!(
        clone.resolve("api.local").map(|r| r.target.port()),
        Some(3000)
    );
}

#[test]
fn remove_returns_some_for_existing() {
    let rules = RuleStore::new();
    rules.add(rule("api.local", 3000));
    assert!(rules.remove("api.local").is_some());
    assert!(rules.resolve("api.local").is_none());
}

#[test]
fn rule_store_remove_returns_none_for_unknown() {
    let rules = RuleStore::new();
    assert!(rules.remove("ghost.local").is_none());
}

#[test]
fn ephemeral_priority() {
    let rules = RuleStore::new();
    rules.add(rule("api.local", 3000));
    rules.add_ephemeral(rule("api.local", 9000));
    assert_eq!(
        rules.resolve("api.local").map(|r| r.target.port()),
        Some(9000)
    );
}

#[test]
fn remove_ephemeral_falls_back() {
    let rules = RuleStore::new();
    rules.add(rule("api.local", 3000));
    rules.add_ephemeral(rule("api.local", 9000));
    rules.remove_ephemeral("api.local");
    assert_eq!(
        rules.resolve("api.local").map(|r| r.target.port()),
        Some(3000)
    );
}

#[test]
fn wildcard_resolves() {
    let rules = RuleStore::new();
    rules.add(rule("*.local", 4000));
    assert_eq!(
        rules.resolve("api.local").map(|r| r.target.port()),
        Some(4000)
    );
    assert_eq!(
        rules.resolve("auth.local").map(|r| r.target.port()),
        Some(4000)
    );
}

#[test]
fn snapshot_persistent_excludes_ephemeral() {
    let rules = RuleStore::new();
    rules.add(rule("api.local", 3000));
    rules.add_ephemeral(rule("tmp.local", 9000));
    let snap = rules.snapshot_persistent();
    assert_eq!(snap.len(), 1);
    assert_eq!(snap[0].domain, "api.local");
}

#[test]
fn rule_store_len_and_is_empty() {
    let store = RuleStore::new();
    assert!(store.is_empty());
    store.add(rule("api.local", 3000));
    assert_eq!(store.len(), 1);
    assert!(!store.is_empty());
}

#[test]
fn rule_store_snapshot_all_includes_ephemeral() {
    let store = RuleStore::new();
    store.add(rule("api.local", 3000));
    store.add_ephemeral(rule("tmp.local", 9000));
    assert_eq!(store.snapshot_all().len(), 2);
}

#[test]
fn rule_store_remove_ephemeral_falls_back() {
    let store = RuleStore::new();
    store.add(rule("api.local", 3000));
    store.add_ephemeral(rule("api.local", 9000));
    store.remove_ephemeral("api.local");
    assert_eq!(
        store.resolve("api.local").map(|r| r.target.port()),
        Some(3000)
    );
}

#[test]
fn rule_store_add_all_bulk_inserts() {
    let store = RuleStore::new();
    let rules = vec![
        rule("api.local", 3000),
        rule("auth.local", 4000),
        rule("*.internal", 5000),
    ];
    store.add_all(rules);
    assert_eq!(store.len(), 3);
    assert!(store.resolve("api.local").is_some());
    assert!(store.resolve("svc.internal").is_some());
}

// Laws on concrete values.

#[test]
fn remove_undoes_add_on_values() {
    let mut store = InnerRuleStore::new();
    store.add(rule("*.local", 4000));
    store.add(rule("*.dev", 5000));
    store.add(rule("api.local", 3000));
    let before: Vec<_> = store.all_rules();
    store.add(rule("*.test", 6000));
    let removed = store.remove("*.test");
    assert_eq!(removed.map(|r| r.target.port()), Some(6000));
    assert_eq!(store.all_rules(), before);
}

#[test]
fn remove_ephemeral_undoes_add_ephemeral_on_values() {
    let mut store = InnerRuleStore::new();
    store.add_ephemeral(rule("tmp.local", 9000));
    let before: Vec<_> = store.all_rules();
    store.add_ephemeral(rule("other.local", 9100));
    assert_eq!(
        store.remove_ephemeral("other.local").map(|r| r.target.port()),
        Some(9100)
    );
    assert_eq!(store.all_rules(), before);
}

#[test]
fn remove_wildcard_moves_last_into_place() {
    let mut store = InnerRuleStore::new();
    store.add(rule("*.a.local", 1));
    store.add(rule("*.b.local", 2));
    store.add(rule("*.local", 3));
    store.remove("*.a.local");
    let domains: Vec<String> = store.persistent_rules().into_iter().map(|r| r.domain).collect();
    assert_eq!(domains, vec!["*.local".to_string(), "*.b.local".to_string()]);
}

#[test]
fn first_added_wildcard_wins() {
    let mut store = InnerRuleStore::new();
    store.add(rule("*.local", 1));
    store.add(rule("*.api.local", 2));
    assert_eq!(store.resolve("x.api.local").map(|r| r.target.port()), Some(1));
    // Re-adding moves a wildcard to the end of the list.
    store.add(rule("*.local", 3));
    assert_eq!(store.resolve("x.api.local").map(|r| r.target.port()), Some(2));
}

#[test]
fn add_replacing_keeps_len() {
    let mut store = InnerRuleStore::new();
    store.add(rule("api.local", 1));
    store.add(rule("*.local", 2));
    assert_eq!(store.len(), 2);
    store.add(rule("api.local", 3));
    store.add(rule("*.local", 4));
    assert_eq!(store.len(), 2);
}

#[test]
fn ephemeral_wildcard_shadows_everything_persistent() {
    let mut store = InnerRuleStore::new();
    store.add(rule("api.local", 1));
    store.add(rule("*.local", 2));
    store.add_ephemeral(rule("*.local", 3));
    assert_eq!(store.resolve("api.local").map(|r| r.target.port()), Some(3));
    assert_eq!(store.resolve("local").map(|r| r.target.port()), None);
}

#[test]
fn remove_returns_exact_rule() {
    let mut store = InnerRuleStore::new();
    store.add(rule("api.local", 1));
    assert_eq!(store.remove("api.local").map(|r| r.domain), Some("api.local".to_string()));
    assert!(store.remove("api.local").is_none());
}

#[test]
fn shared_store_remove_ephemeral_and_snapshots() {
    let store = RuleStore::new();
    assert_eq!(store.add_all(vec![rule("a.local", 1), rule("*.b", 2)]), 2);
    store.add_ephemeral(rule("c.local", 3));
    assert_eq!(store.snapshot_all().len(), 3);
    assert_eq!(store.snapshot_persistent().len(), 2);
    assert_eq!(store.remove_ephemeral("c.local").map(|r| r.target.port()), Some(3));
    assert!(store.remove_ephemeral("c.local").is_none());
    assert_eq!(store.len(), 2);
}

#[test]
fn restart_keeps_exactly_the_persistent_rules() {
    let mut store = InnerRuleStore::new();
    store.add(rule("api.local", 3000));
    store.add(rule("*.app.local", 4000));
    store.add(rule("*.b.local", 4100));
    store.add_ephemeral(rule("run.local", 5000));
    store.add_ephemeral(rule("api.local", 5001));
    let saved = store.persistent_rules();
    let mut loaded = InnerRuleStore::new();
    loaded.add_all(saved.clone());
    assert_eq!(loaded.persistent_rules(), saved);
    assert_eq!(loaded.len(), 3);
    assert!(loaded.resolve("run.local").is_none());
    assert_eq!(loaded.resolve("api.local").map(|r| r.target.port()), Some(3000));
    assert_eq!(loaded.resolve("x.b.local").map(|r| r.target.port()), Some(4100));
}
