use std::sync::Arc;

use sidedns_core::certs::Ca;
use sidedns_core::dns_answer::QueryType;
use sidedns_core::dns_answer::ResponseCode;
use sidedns_core::resolver::{
    pick_certificate, pick_rule, plan_for, survives_invalidation, DomainResolver, QueryPlan,
};
use sidedns_core::{AppState, DnsEvent, DnsRule, IpAddress, SocketTarget};
use tokio_util::sync::CancellationToken;

fn addr(port: u16) -> SocketTarget {
    SocketTarget::new(IpAddress::V4([127, 0, 0, 1]), port)
}

fn rule(domain: &str, port: u16) -> DnsRule {
    DnsRule::new(domain.to_string(), addr(port), false)
}

fn rule_https(domain: &str, port: u16) -> DnsRule {
    DnsRule::new(domain.to_string(), addr(port), true)
}

fn make_resolver(ca: Option<Ca>) -> (DomainResolver, Arc<AppState>) {
    let token = CancellationToken::new();
    let state = Arc::new(AppState::new(token));
    let resolver = DomainResolver::new(state.clone(), ca);
    (resolver, state)
}

fn make_resolver_with_ca() -> (DomainResolver, Arc<AppState>) {
    let (_, ca) = Ca::generate("tester@host").unwrap();
    make_resolver(Some(ca))
}

#[test]
fn resolve_populates_cache_on_miss() {
    let (resolver, state) = make_resolver(None);
    state.store.add(rule("api.local", 3000));

    let result = resolver.resolve_domain("api.local");
    assert_eq!(result.map(|r| r.target.port()), Some(3000));

    assert!(resolver.cache.contains_key("api.local"));
}

#[test]
fn resolve_cache_hit_returns_same_value() {
    let (resolver, state) = make_resolver(None);
    state.store.add(rule("api.local", 3000));

    resolver.resolve_domain("api.local");

    state.store.add(rule("api.local", 9999));

    assert_eq!(
        resolver.resolve_domain("api.local").map(|r| r.target.port()),
        Some(3000)
    );
}

#[test]
fn resolve_returns_none_for_unknown() {
    let (resolver, _state) = make_resolver(None);
    assert!(resolver.resolve_domain("ghost.local").is_none());
}

#[test]
fn invalidate_removes_exact_domain_from_cache() {
    let (resolver, state) = make_resolver(None);
    state.store.add(rule("api.local", 3000));

    resolver.resolve_domain("api.local");
    assert!(resolver.cache.contains_key("api.local"));

    resolver.invalidate(&rule("api.local", 3000));
    assert!(!resolver.cache.contains_key("api.local"));
}

#[test]
fn invalidate_removes_exact_domain_from_certs_cache() {
    let (resolver, state) = make_resolver_with_ca();

    state.store.add(rule_https("api.local", 3000));
    resolver.sign_domain("api.local");

    assert!(resolver.resolve_domain("api.local").is_some());
    assert!(resolver.certs_cache.contains_key("api.local"));

    resolver.invalidate(&rule_https("api.local", 3000));

    assert!(!resolver.certs_cache.contains_key("api.local"));
    assert!(!resolver.cache.contains_key("api.local"));
}

#[test]
fn invalidate_exact_does_not_remove_other_domains() {
    let (resolver, state) = make_resolver(None);
    state.store.add(rule("api.local", 3000));
    state.store.add(rule("auth.local", 4000));

    resolver.resolve_domain("api.local");
    resolver.resolve_domain("auth.local");

    resolver.invalidate(&rule("api.local", 3000));

    assert!(!resolver.cache.contains_key("api.local"));
    assert!(resolver.cache.contains_key("auth.local"));
}

#[test]
fn invalidate_wildcard_removes_matching_cached_entries() {
    let (resolver, state) = make_resolver(None);
    state.store.add(rule("*.local", 4000));

    resolver.resolve_domain("api.local");
    resolver.resolve_domain("auth.local");
    assert!(resolver.cache.contains_key("api.local"));
    assert!(resolver.cache.contains_key("auth.local"));

    resolver.invalidate(&rule("*.local", 4000));

    assert!(!resolver.cache.contains_key("api.local"));
    assert!(!resolver.cache.contains_key("auth.local"));
}

#[test]
fn invalidate_wildcard_does_not_remove_non_matching() {
    let (resolver, state) = make_resolver(None);
    state.store.add(rule("api.remote", 5000));

    resolver.resolve_domain("api.remote");
    assert!(resolver.cache.contains_key("api.remote"));

    resolver.invalidate(&rule("*.local", 4000));

    assert!(resolver.cache.contains_key("api.remote"));
}

#[test]
fn invalidate_wildcard_does_not_remove_root_domain() {
    let (resolver, state) = make_resolver(None);
    state.store.add(rule("local", 5000));

    resolver.resolve_domain("local");
    assert!(resolver.cache.contains_key("local"));

    resolver.invalidate(&rule("*.local", 4000));

    assert!(resolver.cache.contains_key("local"));
}

#[test]
fn sign_domain_returns_none_when_no_ca() {
    let (resolver, _state) = make_resolver(None);
    assert!(resolver.sign_domain("api.local").is_none());
}

#[test]
fn sign_domain_returns_cert_and_caches_it() {
    let (resolver, _state) = make_resolver_with_ca();
    let cert = resolver.sign_domain("api.local");
    assert!(cert.is_some());

    assert!(resolver.certs_cache.contains_key("api.local"));
}

#[test]
fn sign_domain_caches_cert_on_repeated_calls() {
    let (resolver, _state) = make_resolver_with_ca();

    resolver.sign_domain("api.local");
    resolver.sign_domain("api.local");

    assert_eq!(resolver.certs_cache.len(), 1);
}

// Beyond the original's cases.

#[test]
fn survives_invalidation_by_rule_pattern() {
    assert!(!survives_invalidation("*.local", "api.local"));
    assert!(!survives_invalidation("*.local", "a.b.local"));
    assert!(survives_invalidation("*.local", "local"));
    assert!(survives_invalidation("*.local", "apilocal"));
    assert!(!survives_invalidation("api.local", "api.local"));
    assert!(survives_invalidation("api.local", "auth.local"));
}

#[test]
fn certificate_for_needs_ca_and_https_rule() {
    let (resolver, state) = make_resolver(None);
    state.store.add(rule_https("api.local", 3000));
    assert!(resolver.certificate_for("api.local").is_none());

    let (resolver, state) = make_resolver_with_ca();
    state.store.add(rule("plain.local", 3000));
    state.store.add(rule_https("api.local", 3000));
    assert!(resolver.certificate_for("plain.local").is_none());
    assert!(resolver.certificate_for("ghost.local").is_none());
    let first = resolver.certificate_for("api.local").unwrap();
    let again = resolver.certificate_for("api.local").unwrap();
    assert!(Arc::ptr_eq(&first, &again));
}

#[test]
fn answers_locally_only_address_queries_with_a_rule() {
    let (resolver, state) = make_resolver(None);
    state.store.add(rule("api.local", 3000));
    assert!(resolver.answers_locally("api.local", QueryType::A));
    assert!(resolver.answers_locally("api.local", QueryType::Aaaa));
    assert!(!resolver.answers_locally("api.local", QueryType::Other));
    assert!(!resolver.answers_locally("ghost.local", QueryType::A));
}

#[test]
fn restore_certificates_signs_https_exact_rules() {
    let rules = vec![
        rule_https("api.local", 3000),
        rule_https("*.local", 3000),
        rule("plain.local", 3000),
    ];
    let (resolver, _state) = make_resolver_with_ca();
    let failed = resolver.restore_certificates(&rules);
    assert!(failed.is_empty());
    assert!(resolver.certs_cache.contains_key("api.local"));
    assert!(!resolver.certs_cache.contains_key("*.local"));
    assert_eq!(resolver.certs_cache.len(), 1);

    let (resolver, _state) = make_resolver(None);
    assert_eq!(resolver.restore_certificates(&rules), vec!["api.local".to_string()]);
}

#[test]
fn rule_events_invalidate_and_ask_for_saving() {
    let (resolver, state) = make_resolver(None);
    state.store.add(rule("api.local", 3000));
    resolver.resolve_domain("api.local");
    assert!(resolver.on_rule_event(&DnsEvent::RuleAdded(rule("api.local", 3000))));
    assert!(!resolver.cache.contains_key("api.local"));

    resolver.resolve_domain("api.local");
    assert!(!resolver.on_rule_event(&DnsEvent::EphemeralRemoved(rule("api.local", 1))));
    assert!(!resolver.cache.contains_key("api.local"));
    assert!(!resolver.on_rule_event(&DnsEvent::DaemonStopped));
}

#[test]
fn cert_installed_needs_ca_and_files() {
    let (resolver, _state) = make_resolver(None);
    assert!(!resolver.is_cert_installed(true));
    let (resolver, _state) = make_resolver_with_ca();
    assert!(resolver.is_cert_installed(true));
    assert!(!resolver.is_cert_installed(false));
}

#[test]
fn routed_address_queries_get_the_proxy_address() {
    let (resolver, state) = make_resolver(None);
    state.store.add(rule("api.local", 3000));
    match resolver.plan_query("api.local", QueryType::A) {
        QueryPlan::Answer(reply) => {
            assert_eq!(reply.code, ResponseCode::NoError);
            assert!(reply.authoritative);
            let rec = reply.record.expect("an address record");
            assert_eq!(rec.address, IpAddress::V4([127, 0, 0, 42]));
            assert_eq!(rec.name, "api.local.");
            assert_eq!(rec.ttl, 10);
        },
        QueryPlan::Forward => panic!("a routed domain is answered locally"),
    }
    match resolver.plan_query("api.local", QueryType::Aaaa) {
        QueryPlan::Answer(reply) => assert!(reply.record.is_none()),
        QueryPlan::Forward => panic!("a routed domain is answered locally"),
    }
    assert!(matches!(resolver.plan_query("api.local", QueryType::Other), QueryPlan::Forward));
    assert!(matches!(resolver.plan_query("other.local", QueryType::A), QueryPlan::Forward));
}

#[test]
fn resolve_returns_only_rules_that_apply() {
    let (resolver, state) = make_resolver(None);
    resolver.cache.insert("a.local".to_string(), rule("b.local", 1000));
    assert!(resolver.resolve_domain("a.local").is_none());
    state.store.add(rule("*.app.local", 2000));
    let found = resolver.resolve_domain("x.app.local").unwrap();
    assert_eq!(found.domain, "*.app.local");
    assert_eq!(resolver.resolve_domain("x.app.local").unwrap().target.port(), 2000);
}

#[test]
fn pick_rule_prefers_an_applying_cached_rule() {
    let cached = Some(rule("api.local", 1));
    let found = Some(rule("*.local", 2));
    assert_eq!(pick_rule("api.local", cached.clone(), found.clone()), cached);
    assert_eq!(pick_rule("web.local", cached, found.clone()), found);
    assert_eq!(pick_rule("web.local", None, None), None);
}

#[test]
fn plan_for_answers_only_address_queries_with_a_rule() {
    match plan_for(QueryType::A, true, "api.local") {
        QueryPlan::Answer(reply) => {
            let rec = reply.record.unwrap();
            assert_eq!(rec.address, IpAddress::V4([127, 0, 0, 42]));
            assert_eq!(rec.name, "api.local.");
        },
        QueryPlan::Forward => panic!("expected a local answer"),
    }
    assert!(matches!(plan_for(QueryType::Aaaa, true, "api.local"), QueryPlan::Answer(_)));
    assert!(matches!(plan_for(QueryType::A, false, "api.local"), QueryPlan::Forward));
    assert!(matches!(plan_for(QueryType::Other, true, "api.local"), QueryPlan::Forward));
}

#[test]
fn pick_certificate_follows_ca_rule_and_cache() {
    let (_, ca) = Ca::generate("tester@host").unwrap();
    let cert = Arc::new(ca.sign(&["api.local"]).unwrap());
    let other = Arc::new(ca.sign(&["api.local"]).unwrap());
    let https = Some(rule_https("api.local", 1));
    let plain = Some(rule("api.local", 1));
    let got = pick_certificate(true, https.clone(), Some(cert.clone()), Some(other.clone())).unwrap();
    assert!(Arc::ptr_eq(&got, &cert));
    let got = pick_certificate(true, https.clone(), None, Some(other.clone())).unwrap();
    assert!(Arc::ptr_eq(&got, &other));
    assert!(pick_certificate(true, plain, Some(cert.clone()), None).is_none());
    assert!(pick_certificate(false, https, Some(cert), None).is_none());
    assert!(pick_certificate(true, None, None, Some(other)).is_none());
}

#[test]
fn plan_for_fails_a_name_dns_cannot_carry() {
    let long = format!("{}.local", "x".repeat(64));
    match plan_for(QueryType::A, true, &long) {
        QueryPlan::Answer(reply) => {
            assert_eq!(reply.code, ResponseCode::ServFail);
            assert!(!reply.authoritative);
            assert!(reply.record.is_none());
        },
        QueryPlan::Forward => panic!("a covered domain is answered locally"),
    }
}
