//! What the daemon's answers are, for any snapshot of its rule store: the
//! rule a domain resolves to, how a DNS query and a proxied request are
//! handled under it, what an added rule holds, and which domains the
//! system's split DNS is configured for.
use vstd::prelude::*;

use crate::dns_answer::{accepted_dns_name, is_local_reply, QueryType};
use crate::domain::is_valid_domain;
use crate::ipc::IpcRequest;
use crate::net::SocketTarget;
use crate::proxy::{route_spec, ProxyRoute};
use crate::resolver::{is_address_query_spec, proxy_ip, query_planned, QueryPlan};
use crate::rule::{is_wildcard_pattern, pattern_matches, DnsRuleView};
use crate::state::{domains_of, lists_each_domain_once, planned, RequestPlan};
use crate::store_laws::{law_resolve_none_iff_nothing_applies, some_rule_applies};
use crate::store_model::{first_match, lemma_first_match_none, lists_layer, StoreModel};
use crate::text::lowercase;

verus! {

/// A persistent exact rule for `d` serves `d` whenever no ephemeral rule
/// applies to it, whatever persistent wildcards also cover `d`.
pub proof fn law_snapshot_serves_persistent_exact(m: StoreModel, d: Seq<char>)
    requires
        m.wf(),
        m.persistent_exact.contains_key(d),
        !m.ephemeral_exact.contains_key(d),
        forall|i: int|
            0 <= i < m.ephemeral_wildcard.len() ==> !pattern_matches(
                #[trigger] m.ephemeral_wildcard[i].domain,
                d,
            ),
    ensures
        m.resolve(d) == Some(m.persistent_exact[d]),
        !is_wildcard_pattern(m.resolve(d)->0.domain),
{
    lemma_first_match_none(m.ephemeral_wildcard, d);
}

/// An address query for a domain that some rule of the store covers (a
/// wildcard rule included) is answered by the daemon itself, an A query
/// with the proxy's address.
pub proof fn law_covered_domain_answered_locally(
    m: StoreModel,
    d: Seq<char>,
    q: QueryType,
    r: QueryPlan,
)
    requires
        m.wf(),
        some_rule_applies(m, d),
        is_address_query_spec(q),
        accepted_dns_name(d.push('.')),
        query_planned(r, q, m.resolve(d) is Some, d),
    ensures
        m.resolve(d) is Some,
        r matches QueryPlan::Answer(reply) && reply.authoritative && (q is A ==> (
        reply.record matches Some(rec) && rec.address == proxy_ip())),
{
    law_resolve_none_iff_nothing_applies(m, d);
    if let QueryPlan::Answer(reply) = r {
        assert(is_local_reply(reply, proxy_ip(), d, q));
    }
}

/// A request for a host that a rule of the store covers is never answered
/// as unrouted; when the rule serving it asks for HTTPS and the request
/// came in plain, it is redirected to `https://`, the host and the path.
pub proof fn law_covered_host_is_routed(
    m: StoreModel,
    host: Seq<char>,
    is_tls: bool,
    path_and_query: Option<Seq<char>>,
    r: ProxyRoute,
)
    requires
        m.wf(),
        some_rule_applies(m, host),
        route_spec(host, m.resolve(host), is_tls, path_and_query, r),
    ensures
        !(r is NoRule),
        !(r is MissingHost),
        (m.resolve(host)->0.https && !is_tls) ==> (r matches ProxyRoute::Redirect(l) && l@
            == "https://"@ + host + match path_and_query {
            Some(pq) => pq,
            None => "/"@,
        }),
        !(m.resolve(host)->0.https && !is_tls) ==> r is Forward,
{
    law_resolve_none_iff_nothing_applies(m, host);
}

/// A valid `Add` request adds a rule under the lower-cased domain with the
/// requested target and HTTPS setting; for a domain that is no wildcard
/// and that no ephemeral rule covers, the store then serves that very rule.
pub proof fn law_add_request_serves_requested_rule(
    domain: String,
    target: SocketTarget,
    https: bool,
    p: RequestPlan,
    m: StoreModel,
)
    requires
        planned(IpcRequest::Add { domain, target, https }, p),
        is_valid_domain(domain@),
        m.wf(),
        !is_wildcard_pattern(lowercase(domain@)),
        !m.ephemeral_exact.contains_key(lowercase(domain@)),
        forall|i: int|
            0 <= i < m.ephemeral_wildcard.len() ==> !pattern_matches(
                #[trigger] m.ephemeral_wildcard[i].domain,
                lowercase(domain@),
            ),
    ensures
        p matches RequestPlan::Add { rule, ephemeral } && !ephemeral && m.add(rule@).resolve(
            lowercase(domain@),
        ) == Some(DnsRuleView { domain: lowercase(domain@), target, https }),
{
    lemma_first_match_none(m.ephemeral_wildcard, lowercase(domain@));
}

/// Every rule of a layer is listed, when a list of the layer has as many
/// rules as the layer, each for a different domain.
proof fn lemma_layer_listed(s: Seq<DnsRuleView>, layer: Map<Seq<char>, DnsRuleView>)
    requires
        lists_layer(s, layer),
        layer.dom().finite(),
    ensures
        forall|k: Seq<char>|
            #[trigger] layer.contains_key(k) ==> exists|i: int| 0 <= i < s.len() && s[i].domain == k,
{
    let ds = s.map_values(|r: DnsRuleView| r.domain);
    assert forall|i: int, j: int| 0 <= i < ds.len() && 0 <= j < ds.len() && i != j implies ds[i]
        != ds[j] by {
        assert(ds[i] == s[i].domain && ds[j] == s[j].domain);
    }
    assert(ds.no_duplicates());
    ds.unique_seq_to_set();
    assert(ds.to_set().subset_of(layer.dom())) by {
        assert forall|k: Seq<char>| ds.to_set().contains(k) implies layer.dom().contains(k) by {
            let i = choose|i: int| 0 <= i < ds.len() && ds[i] == k;
            assert(ds[i] == s[i].domain);
        }
    }
    vstd::seq_lib::seq_to_set_is_finite(ds);
    vstd::set_lib::lemma_subset_equality(ds.to_set(), layer.dom());
    assert forall|k: Seq<char>| #[trigger] layer.contains_key(k) implies exists|i: int|
        0 <= i < s.len() && s[i].domain == k by {
        assert(ds.to_set().contains(k));
        let i = choose|i: int| 0 <= i < ds.len() && ds[i] == k;
        assert(ds[i] == s[i].domain);
    }
}

/// The domains handed to the system's split-DNS configuration name every
/// rule of the snapshot, the ephemeral ones (those of `sidedns run`)
/// included, and nothing else.
pub proof fn law_all_domains_include_ephemeral(
    m: StoreModel,
    s: Seq<DnsRuleView>,
    d: Seq<Seq<char>>,
)
    requires
        m.wf(),
        m.lists_all(s),
        lists_each_domain_once(d, s),
    ensures
        forall|k: Seq<char>| #[trigger] m.ephemeral_exact.contains_key(k) ==> d.contains(k),
        forall|k: Seq<char>| #[trigger] m.persistent_exact.contains_key(k) ==> d.contains(k),
        forall|i: int|
            0 <= i < m.ephemeral_wildcard.len() ==> d.contains(
                #[trigger] m.ephemeral_wildcard[i].domain,
            ),
        forall|i: int|
            0 <= i < m.persistent_wildcard.len() ==> d.contains(
                #[trigger] m.persistent_wildcard[i].domain,
            ),
        forall|k: int| 0 <= k < d.len() ==> domains_of(s).contains(#[trigger] d[k]),
{
    let a = m.ephemeral_exact.len() as int;
    let b = a + m.ephemeral_wildcard.len();
    let c = b + m.persistent_exact.len();
    lemma_layer_listed(s.take(a), m.ephemeral_exact);
    lemma_layer_listed(s.subrange(b, c), m.persistent_exact);
    assert forall|j: int| 0 <= j < s.len() implies d.contains(s[j].domain) by {
        assert(domains_of(s)[j] == s[j].domain);
        assert(d.contains(#[trigger] domains_of(s)[j]));
    }
    assert forall|k: Seq<char>| #[trigger] m.ephemeral_exact.contains_key(k) implies d.contains(k) by {
        let i = choose|i: int| 0 <= i < s.take(a).len() && s.take(a)[i].domain == k;
        assert(s.take(a)[i] == s[i]);
        assert(d.contains(s[i].domain));
    }
    assert forall|k: Seq<char>| #[trigger] m.persistent_exact.contains_key(k) implies d.contains(
        k,
    ) by {
        let i = choose|i: int| 0 <= i < s.subrange(b, c).len() && s.subrange(b, c)[i].domain == k;
        assert(s.subrange(b, c)[i] == s[b + i]);
        assert(d.contains(s[b + i].domain));
    }
    assert forall|i: int| 0 <= i < m.ephemeral_wildcard.len() implies d.contains(
        #[trigger] m.ephemeral_wildcard[i].domain,
    ) by {
        assert(s.subrange(a, b)[i] == s[a + i]);
        assert(d.contains(s[a + i].domain));
    }
    assert forall|i: int| 0 <= i < m.persistent_wildcard.len() implies d.contains(
        #[trigger] m.persistent_wildcard[i].domain,
    ) by {
        assert(s.skip(c)[i] == s[c + i]);
        assert(d.contains(s[c + i].domain));
    }
}

} // verus!
