//! The lookups that the DNS server and the proxy share: which rule covers a
//! domain, and the TLS certificate for it, both cached.
use vstd::prelude::*;

use std::sync::Arc;

use dashmap::DashMap;
use tokio_rustls::rustls::sign::CertifiedKey;

use crate::certs::{is_ascii_text, Ca};
use crate::dns_answer::{
    accepted_dns_name, failure_reply, fully_qualified, is_address_query, is_failure_reply,
    is_local_reply, local_answer, parses_as_dns_name, DnsReply, QueryType,
};
use crate::net::{proxy_listen_addr, IpAddress};
use crate::rule::{
    is_wildcard_pattern, pattern_applies, pattern_is_wildcard, pattern_matches, DnsRule, DnsRuleView,
};
use crate::ipc::DnsEvent;
use crate::state::{texts_of, AppState};
use crate::store_model::StoreModel;

verus! {

#[verifier::external_type_specification]
#[verifier::external_body]
#[verifier::reject_recursive_types(K)]
#[verifier::reject_recursive_types(V)]
#[verifier::reject_recursive_types(S)]
pub struct ExDashMap<K, V, S>(DashMap<K, V, S>);

/// `DashMap::new`: an empty map.
#[verifier::external_body]
fn new_cache<V>() -> DashMap<String, V> {
    DashMap::new()
}

/// `DashMap::get`: a copy of what `key` holds now. The map is shared and
/// changed through shared references, so nothing is promised of the
/// result.
#[verifier::external_body]
fn cache_get<V: Clone>(cache: &DashMap<String, V>, key: &str) -> Option<V> {
    cache.get(key).map(|entry| entry.value().clone())
}

/// `DashMap::insert`: `key` holds `value` from now on, until it is removed.
#[verifier::external_body]
fn cache_insert<V>(cache: &DashMap<String, V>, key: String, value: V) {
    cache.insert(key, value);
}

/// `DashMap::remove`: `key` holds nothing from now on, until it is set.
#[verifier::external_body]
fn cache_remove<V>(cache: &DashMap<String, V>, key: &str) {
    cache.remove(key);
}

/// `DashMap::retain`, keeping the keys that a rule for `pattern` does not
/// apply to (as [`survives_invalidation`] decides).
#[verifier::external_body]
fn cache_retain_unmatched<V>(cache: &DashMap<String, V>, pattern: &str) {
    cache.retain(|key, _| survives_invalidation(pattern, key));
}

/// Whether a cached `key` stays when a rule for `pattern` changes: it stays
/// unless the rule applies to it.
pub fn survives_invalidation(pattern: &str, key: &str) -> (r: bool)
    ensures
        r == !pattern_matches(pattern@, key@),
{
    !pattern_applies(pattern, key)
}

/// Finds the rule for a domain, and the certificate for a domain, through
/// caches in front of the rule store and the CA.
pub struct DomainResolver {
    pub state: Arc<AppState>,
    pub cert_authority: Option<Ca>,
    /// The rule found for each domain looked up since it was last
    /// invalidated.
    pub cache: DashMap<String, DnsRule>,
    /// The certificate signed for each domain since it was last
    /// invalidated.
    pub certs_cache: DashMap<String, Arc<CertifiedKey>>,
}

impl DomainResolver {
    pub fn new(state: Arc<AppState>, cert_authority: Option<Ca>) -> (r: DomainResolver)
        ensures
            r.state == state,
            r.cert_authority == cert_authority,
    {
        DomainResolver { state, cert_authority, cache: new_cache(), certs_cache: new_cache() }
    }

    /// Whether certificates can be made: a CA was loaded, and its files are
    /// in place (`root_files_present`, which reading them tells).
    pub fn is_cert_installed(&self, root_files_present: bool) -> (r: bool)
        ensures
            r == (self.cert_authority is Some && root_files_present),
    {
        self.cert_authority.is_some() && root_files_present
    }

    /// The rule for `domain`: the cached one when it applies to the domain
    /// (as every rule the lookup caches does), else the store's, which is
    /// then cached ([`pick_rule`] of what the cache and the store gave).
    pub fn resolve_domain(&self, domain: &str) -> (r: Option<DnsRule>)
        ensures
            resolver_answer(domain@, r),
            r matches Some(rule) ==> pattern_matches(rule@.domain, domain@),
            r is None ==> exists|m: StoreModel| m.wf() && m.resolve(domain@) is None,
    {
        let cached = cache_get(&self.cache, domain);
        let hit = match &cached {
            Some(rule) => pattern_applies(rule.domain.as_str(), domain),
            None => false,
        };
        let found = if hit {
            None
        } else {
            let found = self.state.store.resolve(domain);
            match &found {
                Some(rule) => cache_insert(&self.cache, domain.to_string(), rule.clone()),
                None => {},
            }
            found
        };
        proof {
            if !hit {
                assert(store_answer(domain@, found));
            } else {
                let m = StoreModel::empty();
                assert(m.wf() && m.resolve(domain@) is None);
                assert(store_answer(domain@, found));
            }
        }
        let r = pick_rule(domain, cached, found);
        assert(resolver_answer(domain@, r));
        r
    }

    /// A certificate for `domain`, freshly signed by the CA and cached; none
    /// without a CA, or when signing fails (always for a domain that is
    /// neither an IP address nor ASCII).
    pub fn sign_domain(&self, domain: &str) -> (r: Option<Arc<CertifiedKey>>)
        ensures
            self.cert_authority is None ==> r is None,
            !is_ascii_text(domain@) ==> r is None,
    {
        match &self.cert_authority {
            None => None,
            Some(ca) => {
                let domains: [&str; 1] = [domain];
                assert(domains@[0]@ == domain@);
                match ca.sign(domains.as_slice()) {
                    Err(_) => None,
                    Ok(key) => {
                        let cert = Arc::new(key);
                        cache_insert(&self.certs_cache, domain.to_string(), cert.clone());
                        Some(cert)
                    },
                }
            },
        }
    }

    /// Forgets what was cached for the domains that `rule` applies to: the
    /// rule's own domain, or, for a wildcard, every domain under it.
    pub fn invalidate(&self, rule: &DnsRule) {
        if pattern_is_wildcard(rule.domain.as_str()) {
            cache_retain_unmatched(&self.cache, rule.domain.as_str());
            cache_retain_unmatched(&self.certs_cache, rule.domain.as_str());
        } else {
            cache_remove(&self.cache, rule.domain.as_str());
            cache_remove(&self.certs_cache, rule.domain.as_str());
        }
    }

    /// The certificate to present for `domain` during a TLS handshake
    /// ([`pick_certificate`] of what the lookups gave): none without a CA,
    /// or when the rule for the domain does not ask for HTTPS; else the
    /// cached one, or else one newly signed.
    pub fn certificate_for(&self, domain: &str) -> (r: Option<Arc<CertifiedKey>>)
        ensures
            self.cert_authority is None ==> r is None,
            exists|rule: Option<DnsRule>, cached: Option<Arc<CertifiedKey>>, signed: Option<
                Arc<CertifiedKey>,
            >|
                #[trigger] picked_certificate(self.cert_authority is Some, rule, cached, signed)
                    == r && resolver_answer(domain@, rule) && (signed is Some ==> is_ascii_text(
                    domain@,
                )),
    {
        let has_ca = self.cert_authority.is_some();
        if !has_ca {
            let none: Option<DnsRule> = None;
            proof {
                let m = StoreModel::empty();
                assert(m.wf() && m.resolve(domain@) is None);
                assert(store_answer(domain@, none));
                assert(picked_rule(domain@, none, none) == none);
            }
            return pick_certificate(false, None, None, None);
        }
        let rule = self.resolve_domain(domain);
        let wants_tls = match &rule {
            Some(x) => x.https,
            None => false,
        };
        let cached = if wants_tls {
            cache_get(&self.certs_cache, domain)
        } else {
            None
        };
        let signed = if wants_tls && cached.is_none() {
            self.sign_domain(domain)
        } else {
            None
        };
        pick_certificate(has_ca, rule, cached, signed)
    }

    /// Whether a query for `domain` is answered locally: it asks for an
    /// address and a rule covers the domain. Other kinds of query are never
    /// looked up.
    pub fn answers_locally(&self, domain: &str, q: QueryType) -> (r: bool)
        ensures
            exists|found: Option<DnsRule>|
                #[trigger] resolver_answer(domain@, found) && r == (is_address_query_spec(q)
                    && found is Some),
    {
        if is_address_query(q) {
            let found = self.resolve_domain(domain);
            found.is_some()
        } else {
            let none: Option<DnsRule> = None;
            proof {
                let m = StoreModel::empty();
                assert(m.wf() && m.resolve(domain@) is None);
                assert(store_answer(domain@, none));
                assert(picked_rule(domain@, none, none) == none);
                assert(resolver_answer(domain@, none));
            }
            false
        }
    }

    /// How the DNS server handles a query for `domain` ([`plan_for`] of
    /// whether a rule covers it): a query for an address of a domain that a
    /// rule covers is answered by the daemon with the proxy's address (the
    /// proxy then reaches the rule's port, which DNS cannot carry); every
    /// other query is forwarded upstream.
    pub fn plan_query(&self, domain: &str, q: QueryType) -> (r: QueryPlan)
        ensures
            exists|found: Option<DnsRule>|
                #[trigger] resolver_answer(domain@, found) && query_planned(
                    r,
                    q,
                    found is Some,
                    domain@,
                ),
    {
        let found = self.answers_locally(domain, q);
        plan_for(q, found, domain)
    }
}

/// The proxy's address, which local answers carry.
pub open spec fn proxy_ip() -> IpAddress {
    IpAddress::V4([127u8, 0u8, 0u8, 42u8])
}

/// What the store's lookup for `domain` may give: the answer of some
/// well-formed store, which applies to the domain when there is one.
pub open spec fn store_answer(domain: Seq<char>, found: Option<DnsRule>) -> bool {
    &&& exists|m: StoreModel| m.wf() && opt_rule_view(found) == m.resolve(domain)
    &&& found matches Some(f) ==> pattern_matches(f@.domain, domain)
}

/// The view of an optional rule.
pub open spec fn opt_rule_view(r: Option<DnsRule>) -> Option<DnsRuleView> {
    match r {
        Some(x) => Some(x@),
        None => None,
    }
}

/// The rule a lookup for `domain` gives: the cached rule when it applies
/// to the domain, else the store's.
pub open spec fn picked_rule(
    domain: Seq<char>,
    cached: Option<DnsRule>,
    found: Option<DnsRule>,
) -> Option<DnsRule> {
    if cached matches Some(c) && pattern_matches(c@.domain, domain) {
        cached
    } else {
        found
    }
}

/// `r` is what the resolver answers for `domain`: the rule picked from
/// some cached rule and some answer of the store.
pub open spec fn resolver_answer(domain: Seq<char>, r: Option<DnsRule>) -> bool {
    exists|cached: Option<DnsRule>, found: Option<DnsRule>|
        #[trigger] picked_rule(domain, cached, found) == r && store_answer(domain, found)
}

/// Picks the rule for `domain` from the cached rule and the store's.
pub fn pick_rule(domain: &str, cached: Option<DnsRule>, found: Option<DnsRule>) -> (r: Option<
    DnsRule,
>)
    ensures
        r == picked_rule(domain@, cached, found),
{
    let hit = match &cached {
        Some(c) => pattern_applies(c.domain.as_str(), domain),
        None => false,
    };
    if hit {
        cached
    } else {
        found
    }
}

/// The certificate for a handshake: none without a CA or unless the rule
/// asks for HTTPS; else the cached certificate if there is one, else the
/// newly signed one.
pub open spec fn picked_certificate(
    has_ca: bool,
    rule: Option<DnsRule>,
    cached: Option<Arc<CertifiedKey>>,
    signed: Option<Arc<CertifiedKey>>,
) -> Option<Arc<CertifiedKey>> {
    if has_ca && (rule matches Some(x) && x.https) {
        if cached is Some {
            cached
        } else {
            signed
        }
    } else {
        None
    }
}

/// Picks the certificate for a handshake from what the lookups gave.
pub fn pick_certificate(
    has_ca: bool,
    rule: Option<DnsRule>,
    cached: Option<Arc<CertifiedKey>>,
    signed: Option<Arc<CertifiedKey>>,
) -> (r: Option<Arc<CertifiedKey>>)
    ensures
        r == picked_certificate(has_ca, rule, cached, signed),
{
    let wants = match &rule {
        Some(x) => has_ca && x.https,
        None => false,
    };
    if !wants {
        None
    } else if cached.is_some() {
        cached
    } else {
        signed
    }
}

/// `r` is how a query of kind `q` for `domain` is handled, when `found`
/// tells whether a rule covers the domain: an address query for a covered
/// domain is answered locally (with a server failure when `domain.` is no
/// DNS name), and every other query is forwarded.
pub open spec fn query_planned(r: QueryPlan, q: QueryType, found: bool, domain: Seq<char>) -> bool {
    if is_address_query_spec(q) && found {
        r matches QueryPlan::Answer(reply) && if accepted_dns_name(domain.push('.')) {
            is_local_reply(reply, proxy_ip(), domain, q)
        } else {
            is_failure_reply(reply)
        }
    } else {
        r is Forward
    }
}

/// How a query is handled: answered with the proxy's address when it asks
/// for an address and a rule covers the domain (a server failure when the
/// domain is no DNS name), forwarded otherwise.
pub fn plan_for(q: QueryType, found: bool, domain: &str) -> (r: QueryPlan)
    ensures
        query_planned(r, q, found, domain@),
{
    if is_address_query(q) && found {
        let name = fully_qualified(domain);
        if parses_as_dns_name(name.as_str()) {
            QueryPlan::Answer(local_answer(proxy_listen_addr().ip, domain, q))
        } else {
            QueryPlan::Answer(failure_reply())
        }
    } else {
        QueryPlan::Forward
    }
}

/// What the DNS server does with a query.
pub enum QueryPlan {
    /// Answer with this reply, from the daemon itself.
    Answer(DnsReply),
    /// Pass the query on to the upstream resolver.
    Forward,
}

/// Whether the daemon signs a certificate for a saved rule when it starts:
/// the rule asks for HTTPS and names one domain (not a wildcard).
pub open spec fn needs_certificate(r: DnsRule) -> bool {
    r.https && !is_wildcard_pattern(r.domain@)
}

/// The domains of the rules that need a certificate.
pub open spec fn certificate_domains(rules: Seq<DnsRule>) -> Set<Seq<char>> {
    Set::new(
        |d: Seq<char>|
            exists|j: int| 0 <= j < rules.len() && needs_certificate(rules[j]) && rules[j].domain@ == d,
    )
}

impl DomainResolver {
    /// Signs (and caches) a certificate for each rule that needs one, in
    /// order; returns the domains whose signing failed. Without a CA, that
    /// is every such domain.
    pub fn restore_certificates(&self, rules: &Vec<DnsRule>) -> (failed: Vec<String>)
        ensures
            forall|k: int|
                0 <= k < failed@.len() ==> certificate_domains(rules@).contains(
                    #[trigger] failed@[k]@,
                ),
            forall|j: int|
                0 <= j < rules@.len() && needs_certificate(#[trigger] rules@[j]) && (
                self.cert_authority is None || !is_ascii_text(rules@[j].domain@))
                    ==> texts_of(failed@).contains(rules@[j].domain@),
    {
        let mut failed: Vec<String> = Vec::new();
        let mut i: usize = 0;
        while i < rules.len()
            invariant
                0 <= i <= rules@.len(),
                forall|k: int|
                    0 <= k < failed@.len() ==> certificate_domains(rules@).contains(
                        #[trigger] failed@[k]@,
                    ),
                forall|j: int|
                    0 <= j < i && needs_certificate(#[trigger] rules@[j]) && (
                    self.cert_authority is None || !is_ascii_text(rules@[j].domain@))
                        ==> texts_of(failed@).contains(rules@[j].domain@),
            decreases rules@.len() - i,
        {
            let rule = &rules[i];
            if rule.https && !rule.is_wildcard() {
                if self.sign_domain(rule.domain.as_str()).is_none() {
                    let ghost before = failed@;
                    failed.push(rule.domain.clone());
                    assert(texts_of(failed@)[before.len() as int] == rule.domain@);
                    assert forall|j: int|
                        0 <= j < i && needs_certificate(#[trigger] rules@[j]) && (
                        self.cert_authority is None || !is_ascii_text(rules@[j].domain@))
                            implies texts_of(failed@).contains(rules@[j].domain@) by {
                        let q = choose|q: int|
                            0 <= q < texts_of(before).len() && texts_of(before)[q]
                                == rules@[j].domain@;
                        assert(texts_of(failed@)[q] == texts_of(before)[q]);
                    }
                    assert(needs_certificate(rules@[i as int]) && rules@[i as int].domain@
                        == rule.domain@);
                    assert forall|k: int| 0 <= k < failed@.len() implies certificate_domains(
                        rules@,
                    ).contains(#[trigger] failed@[k]@) by {
                        if k < before.len() {
                            assert(failed@[k] == before[k]);
                        }
                    }
                }
            }
            i = i + 1;
        }
        failed
    }

    /// Reacts to an event of the daemon: forgets what was cached for the
    /// event's rule; true when the persistent rules changed and must be
    /// saved again.
    pub fn on_rule_event(&self, event: &DnsEvent) -> (save: bool)
        ensures
            save == (*event is RuleAdded || *event is RuleRemoved),
    {
        match event.rule() {
            Some(rule) => self.invalidate(rule),
            None => {},
        }
        event.changes_persistent_rules()
    }
}

/// Queries for addresses: A and AAAA.
pub open spec fn is_address_query_spec(q: QueryType) -> bool {
    q is A || q is Aaaa
}

} // verus!
