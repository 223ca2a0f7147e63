//! The reverse proxy's decisions: which requests go where, and how their
//! headers are rewritten on the way.
use vstd::prelude::*;

use std::sync::Arc;

use hyper::HeaderMap;
use tokio_util::sync::CancellationToken;

use crate::resolver::{opt_rule_view, resolver_answer, DomainResolver};
use crate::store_model::StoreModel;

use crate::headers::{
    ascii_bytes, ascii_lower, contains_text, first_in, first_value, header_fields, header_first,
    header_remove, header_set, is_header_name, text_contains, text_of_value, to_ascii_lower,
    value_text, visible_char, visible_text, header_name_count, HEADER_NAME_ROOM,
};
use crate::ipv6_text::{groups_text, hex, hex_char, ipv6_text, mapped_text, zero_run, is_best_run};
use crate::net::{ip_text, IpAddress, SocketTarget};
use crate::rule::{pattern_matches, DnsRule, DnsRuleView};
use crate::text::{decimal, digit_char, push_char};

verus! {

/// Every digit of a decimal numeral is visible ASCII.
proof fn lemma_decimal_visible(n: nat)
    ensures
        visible_text(decimal(n)),
    decreases n,
{
    if n >= 10 {
        lemma_decimal_visible(n / 10);
    }
    assert(seq!['0', '1', '2', '3', '4', '5', '6', '7', '8', '9'][(n % 10) as int] == digit_char(
        n % 10,
    ));
}

/// Every digit of a hexadecimal numeral is visible ASCII.
proof fn lemma_hex_visible(n: nat)
    ensures
        visible_text(hex(n)),
    decreases n,
{
    if n >= 16 {
        lemma_hex_visible(n / 16);
    }
    assert(seq!['0', '1', '2', '3', '4', '5', '6', '7', '8', '9', 'a', 'b', 'c', 'd', 'e', 'f'][(n
        % 16) as int] == hex_char(n % 16));
}

proof fn lemma_concat_visible(a: Seq<char>, b: Seq<char>)
    requires
        visible_text(a),
        visible_text(b),
    ensures
        visible_text(a + b),
{
    assert forall|i: int| 0 <= i < (a + b).len() implies visible_char(#[trigger] (a + b)[i]) by {
        if i < a.len() {
            assert((a + b)[i] == a[i]);
        } else {
            assert((a + b)[i] == b[i - a.len()]);
        }
    }
}

proof fn lemma_groups_visible(g: Seq<u16>)
    ensures
        visible_text(groups_text(g)),
    decreases g.len(),
{
    if g.len() == 1 {
        lemma_hex_visible(g[0] as nat);
    } else if g.len() > 1 {
        lemma_hex_visible(g[0] as nat);
        lemma_groups_visible(g.skip(1));
        lemma_concat_visible(hex(g[0] as nat), seq![':']);
        lemma_concat_visible(hex(g[0] as nat) + seq![':'], groups_text(g.skip(1)));
    }
}

/// The text of an IP address is made of visible ASCII characters, so it is
/// always a valid header value.
pub proof fn lemma_ip_text_visible(ip: IpAddress)
    ensures
        visible_text(ip_text(ip)),
{
    let dot = seq!['.'];
    match ip {
        IpAddress::V4(o) => {
            lemma_decimal_visible(o@[0] as nat);
            lemma_decimal_visible(o@[1] as nat);
            lemma_decimal_visible(o@[2] as nat);
            lemma_decimal_visible(o@[3] as nat);
            let a = decimal(o@[0] as nat) + dot;
            lemma_concat_visible(decimal(o@[0] as nat), dot);
            lemma_concat_visible(a, decimal(o@[1] as nat));
            lemma_concat_visible(a + decimal(o@[1] as nat), dot);
            lemma_concat_visible(a + decimal(o@[1] as nat) + dot, decimal(o@[2] as nat));
            lemma_concat_visible(a + decimal(o@[1] as nat) + dot + decimal(o@[2] as nat), dot);
            lemma_concat_visible(
                a + decimal(o@[1] as nat) + dot + decimal(o@[2] as nat) + dot,
                decimal(o@[3] as nat),
            );
        },
        IpAddress::V6(g) => {
            let g = g@;
            if crate::ipv6_text::is_ipv4_mapped(g) {
                let w = g[6];
                let x = g[7];
                lemma_decimal_visible((w / 256) as nat);
                lemma_decimal_visible((w % 256) as nat);
                lemma_decimal_visible((x / 256) as nat);
                lemma_decimal_visible((x % 256) as nat);
                let p0 = decimal((w / 256) as nat);
                lemma_concat_visible(p0, dot);
                lemma_concat_visible(p0 + dot, decimal((w % 256) as nat));
                lemma_concat_visible(p0 + dot + decimal((w % 256) as nat), dot);
                lemma_concat_visible(
                    p0 + dot + decimal((w % 256) as nat) + dot,
                    decimal((x / 256) as nat),
                );
                lemma_concat_visible(
                    p0 + dot + decimal((w % 256) as nat) + dot + decimal((x / 256) as nat),
                    dot,
                );
                lemma_concat_visible(
                    p0 + dot + decimal((w % 256) as nat) + dot + decimal((x / 256) as nat) + dot,
                    decimal((x % 256) as nat),
                );
                let head = seq![':', ':', 'f', 'f', 'f', 'f', ':'];
                assert(visible_text(head));
                lemma_concat_visible(head, mapped_text(g));
            } else if exists|s: int| is_best_run(g, s) && zero_run(g, s) > 1 {
                let s = choose|s: int| is_best_run(g, s) && zero_run(g, s) > 1;
                lemma_groups_visible(g.take(s));
                lemma_groups_visible(g.skip(s + zero_run(g, s)));
                lemma_concat_visible(groups_text(g.take(s)), seq![':', ':']);
                lemma_concat_visible(
                    groups_text(g.take(s)) + seq![':', ':'],
                    groups_text(g.skip(s + zero_run(g, s))),
                );
            } else {
                lemma_groups_visible(g);
            }
        },
    }
}

} // verus!

verus! {

/// The text of a value as `HeaderValue::to_str` yields it, or `""` when it
/// is absent or not visible ASCII.
pub open spec fn text_or_empty(v: Option<Seq<u8>>) -> Seq<char> {
    match v {
        Some(b) => match value_text(b) {
            Some(t) => t,
            None => Seq::empty(),
        },
        None => Seq::empty(),
    }
}

/// Whether the headers ask for a WebSocket upgrade: `Upgrade` is
/// `websocket` (in any case) and `Connection` mentions `upgrade`.
pub open spec fn websocket_fields(fields: Map<Seq<char>, Seq<Seq<u8>>>) -> bool {
    let upgrade = match first_in(fields, "upgrade"@) {
        Some(b) => match value_text(b) {
            Some(t) => Some(ascii_lower(t)),
            None => None,
        },
        None => None,
    };
    &&& upgrade == Some("websocket"@)
    &&& contains_text(ascii_lower(text_or_empty(first_in(fields, "connection"@))), "upgrade"@)
}

/// `t` up to its first `:` (all of it when it has none).
pub open spec fn before_colon(t: Seq<char>) -> Seq<char>
    decreases t.len(),
{
    if t.len() == 0 {
        t
    } else if t[0] == ':' {
        Seq::empty()
    } else {
        seq![t[0]] + before_colon(t.skip(1))
    }
}

/// The host a request is for: its `Host` header, without a port, in lower
/// case.
pub open spec fn host_of(fields: Map<Seq<char>, Seq<Seq<u8>>>) -> Option<Seq<char>> {
    match first_in(fields, "host"@) {
        Some(b) => match value_text(b) {
            Some(t) => Some(ascii_lower(before_colon(t))),
            None => None,
        },
        None => None,
    }
}

/// The headers that only concern one connection, and are never passed on.
pub open spec fn without_hop_by_hop(
    fields: Map<Seq<char>, Seq<Seq<u8>>>,
) -> Map<Seq<char>, Seq<Seq<u8>>> {
    fields.remove("proxy-authorization"@).remove("proxy-authenticate"@).remove("te"@).remove(
        "transfer-encoding"@,
    ).remove("trailer"@).remove("proxy-connection"@)
}

/// The `X-Forwarded-Proto` value for a connection.
pub open spec fn proto_text(is_tls: bool) -> Seq<char> {
    if is_tls {
        "https"@
    } else {
        "http"@
    }
}

/// `r` is the route of a request for `host` under the rule the resolver
/// answered for `host`: a rule that applies to `host`, where no rule means
/// that none of the store's applied to it.
pub open spec fn routed_by_store(
    host: Seq<char>,
    is_tls: bool,
    path_and_query: Option<Seq<char>>,
    r: ProxyRoute,
) -> bool {
    exists|rule: Option<DnsRule>|
        #[trigger] route_spec(host, opt_rule_view(rule), is_tls, path_and_query, r)
            && resolver_answer(host, rule) && (rule matches Some(rv) ==> pattern_matches(
            rv@.domain,
            host,
        )) && (rule is None ==> exists|m: StoreModel| m.wf() && m.resolve(host) is None)
}

/// The text of an optional string.
pub open spec fn opt_text(p: Option<&str>) -> Option<Seq<char>> {
    match p {
        Some(t) => Some(t@),
        None => None,
    }
}


/// Where a request goes.
pub enum ProxyRoute {
    /// The request names no host: the connection fails.
    MissingHost,
    /// No rule covers the host: answered `502 Bad Gateway`.
    NoRule,
    /// The rule wants HTTPS and the request came in plain: answered
    /// `301 Moved Permanently` to this location.
    Redirect(String),
    /// Passed on to this address.
    Forward(SocketTarget),
}

/// The address a rule's traffic is sent to: an unspecified address
/// (`0.0.0.0`, `::`) stands for the loopback address of its family.
pub open spec fn upstream_of(t: SocketTarget) -> SocketTarget {
    match t.ip {
        IpAddress::V4(o) => if crate::net::is_unspecified_v4(o) {
            SocketTarget { ip: IpAddress::V4([127u8, 0u8, 0u8, 1u8]), port: t.port }
        } else {
            t
        },
        IpAddress::V6(g) => if crate::net::is_unspecified_v6(g) {
            SocketTarget { ip: IpAddress::V6([0u16, 0u16, 0u16, 0u16, 0u16, 0u16, 0u16, 1u16]), port: t.port }
        } else {
            t
        },
    }
}

/// The route of a request for `host`, given the rule that covers it.
pub open spec fn route_spec(
    host: Seq<char>,
    rule: Option<DnsRuleView>,
    is_tls: bool,
    path_and_query: Option<Seq<char>>,
    r: ProxyRoute,
) -> bool {
    match rule {
        None => r is NoRule,
        Some(rv) => if rv.https && !is_tls {
            r matches ProxyRoute::Redirect(l) && l@ == "https://"@ + host + match path_and_query {
                Some(pq) => pq,
                None => "/"@,
            }
        } else {
            r == ProxyRoute::Forward(upstream_of(rv.target))
        },
    }
}

proof fn lemma_names()
    ensures
        is_header_name("upgrade"@),
        is_header_name("connection"@),
        is_header_name("host"@),
        is_header_name("proxy-authorization"@),
        is_header_name("proxy-authenticate"@),
        is_header_name("te"@),
        is_header_name("transfer-encoding"@),
        is_header_name("trailer"@),
        is_header_name("proxy-connection"@),
        is_header_name("x-real-ip"@),
        is_header_name("x-forwarded-for"@),
        is_header_name("x-forwarded-proto"@),
        visible_text("http"@),
        visible_text("https"@),
{
    reveal_strlit("upgrade");
    reveal_strlit("connection");
    reveal_strlit("host");
    reveal_strlit("proxy-authorization");
    reveal_strlit("proxy-authenticate");
    reveal_strlit("te");
    reveal_strlit("transfer-encoding");
    reveal_strlit("trailer");
    reveal_strlit("proxy-connection");
    reveal_strlit("x-real-ip");
    reveal_strlit("x-forwarded-for");
    reveal_strlit("x-forwarded-proto");
    reveal_strlit("http");
    reveal_strlit("https");
}

/// The text of the first value under `name`, or `""`.
fn text_or_empty_of(headers: &HeaderMap, name: &str) -> (r: String)
    requires
        is_header_name(name@),
    ensures
        r@ == text_or_empty(first_value(*headers, name@)),
{
    match header_first(headers, name) {
        Some(v) => match text_of_value(&v) {
            Some(t) => t,
            None => String::new(),
        },
        None => String::new(),
    }
}

/// `t` up to its first `:`.
fn host_part(t: &str) -> (r: String)
    ensures
        r@ == before_colon(t@),
{
    let v = crate::text::chars_of(t);
    let mut r = String::new();
    let mut i: usize = 0;
    assert(v@.skip(0) =~= v@);
    while i < v.len()
        invariant
            0 <= i <= v.len(),
            v@ == t@,
            r@ + before_colon(v@.skip(i as int)) == before_colon(t@),
        decreases v.len() - i,
    {
        let ghost rest = v@.skip(i as int);
        if v[i] == ':' {
            assert(before_colon(rest) =~= Seq::<char>::empty());
            assert(r@ =~= r@ + Seq::<char>::empty());
            return r;
        }
        assert(rest.skip(1) =~= v@.skip(i + 1));
        push_char(&mut r, v[i]);
        assert(r@ + before_colon(v@.skip(i + 1)) =~= before_colon(t@));
        i = i + 1;
    }
    assert(v@.skip(v.len() as int) =~= Seq::<char>::empty());
    assert(r@ =~= r@ + Seq::<char>::empty());
    r
}

/// Whether `status` and the client's request make the exchange a tunnel:
/// the client asked for a WebSocket and the upstream agreed with
/// `101 Switching Protocols`.
pub fn tunnels_upgrade(client_asked: bool, status: u16) -> (r: bool)
    ensures
        r == (client_asked && status == 101),
{
    client_asked && status == 101
}

/// Where a request for `host` goes, given the rule that covers it (if
/// any), whether it came over TLS, and its path and query.
pub fn route_for_rule(
    host: &str,
    rule: Option<DnsRule>,
    is_tls: bool,
    path_and_query: Option<&str>,
) -> (r: ProxyRoute)
    ensures
        route_spec(
            host@,
            match rule {
                Some(x) => Some(x@),
                None => None,
            },
            is_tls,
            match path_and_query {
                Some(p) => Some(p@),
                None => None,
            },
            r,
        ),
{
    match rule {
        None => ProxyRoute::NoRule,
        Some(rule) => {
            if rule.https && !is_tls {
                let mut location = String::from_str("https://");
                location.append(host);
                match path_and_query {
                    Some(pq) => location.append(pq),
                    None => location.append("/"),
                }
                ProxyRoute::Redirect(location)
            } else {
                let t = rule.target;
                let target = if t.ip.is_unspecified() {
                    match t.ip {
                        IpAddress::V4(_) => SocketTarget { ip: IpAddress::V4([127, 0, 0, 1]), port: t.port },
                        IpAddress::V6(_) => SocketTarget {
                            ip: IpAddress::V6([0, 0, 0, 0, 0, 0, 0, 1]),
                            port: t.port,
                        },
                    }
                } else {
                    t
                };
                ProxyRoute::Forward(target)
            }
        },
    }
}

} // verus!

verus! {

/// The reverse proxy: routes each request by its host to the rule's target.
pub struct ProxyServer {
    pub resolver: Arc<DomainResolver>,
    pub token: CancellationToken,
}

impl ProxyServer {
    pub fn new(resolver: Arc<DomainResolver>, token: CancellationToken) -> (r: ProxyServer)
        ensures
            r.resolver == resolver,
            r.token == token,
    {
        ProxyServer { resolver, token }
    }

    /// Where a request with these headers goes: nowhere without a host;
    /// else as the rule that the resolver finds for the host says
    /// ([`route_for_rule`]). When no rule is found, none of the store's
    /// applied to the host at the time of the lookup.
    pub fn route(&self, headers: &HeaderMap, is_tls: bool, path_and_query: Option<&str>) -> (r:
        ProxyRoute)
        ensures
            (r is MissingHost) == (host_of(header_fields(*headers)) is None),
            host_of(header_fields(*headers)) is Some ==> routed_by_store(
                host_of(header_fields(*headers))->0,
                is_tls,
                opt_text(path_and_query),
                r,
            ),
    {
        let host = match Self::extract_host(headers) {
            Some(h) => h,
            None => return ProxyRoute::MissingHost,
        };
        let rule = self.resolver.resolve_domain(host.as_str());
        let ghost rule_seen = rule;
        let ghost rv = opt_rule_view(rule);
        let r = route_for_rule(host.as_str(), rule, is_tls, path_and_query);
        assert(route_spec(host@, rv, is_tls, opt_text(path_and_query), r));
        assert(resolver_answer(host@, rule_seen));
        assert(routed_by_store(host@, is_tls, opt_text(path_and_query), r));
        r
    }

    /// Whether the headers ask for a WebSocket upgrade.
    pub fn is_websocket(headers: &HeaderMap) -> (r: bool)
        ensures
            r == websocket_fields(header_fields(*headers)),
    {
        proof {
            lemma_names();
        }
        let upgrade = match header_first(headers, "upgrade") {
            Some(v) => match text_of_value(&v) {
                Some(t) => Some(to_ascii_lower(t.as_str())),
                None => None,
            },
            None => None,
        };
        let connection = text_or_empty_of(headers, "connection");
        let connection = to_ascii_lower(connection.as_str());
        let has_upgrade = match upgrade {
            Some(u) => crate::text::str_equals(u.as_str(), "websocket"),
            None => false,
        };
        let has_connection_upgrade = text_contains(connection.as_str(), "upgrade");
        has_upgrade && has_connection_upgrade
    }

    /// The host a request is for: the `Host` header without its port, in
    /// lower case. The header's text is visible ASCII, for which
    /// `str::to_lowercase` and ASCII lower-casing agree.
    pub fn extract_host(headers: &HeaderMap) -> (r: Option<String>)
        ensures
            r matches Some(h) ==> host_of(header_fields(*headers)) == Some(h@),
            r is None ==> host_of(header_fields(*headers)) is None,
    {
        proof {
            lemma_names();
        }
        match header_first(headers, "host") {
            Some(v) => match text_of_value(&v) {
                Some(t) => {
                    let h = host_part(t.as_str());
                    Some(to_ascii_lower(h.as_str()))
                },
                None => None,
            },
            None => None,
        }
    }

    /// Tells the upstream who the client is and how it connected:
    /// `X-Real-IP` and `X-Forwarded-For` hold the client's address,
    /// `X-Forwarded-Proto` `http` or `https`.
    pub fn add_proxy_headers(headers: &mut HeaderMap, client_ip: IpAddress, is_tls: bool)
        requires
            header_fields(*old(headers)).dom().finite(),
            header_fields(*old(headers)).dom().len() + 2 <= HEADER_NAME_ROOM,
        ensures
            header_fields(*final(headers)) == header_fields(*old(headers)).insert(
                "x-real-ip"@,
                seq![ascii_bytes(ip_text(client_ip))],
            ).insert("x-forwarded-for"@, seq![ascii_bytes(ip_text(client_ip))]).insert(
                "x-forwarded-proto"@,
                seq![ascii_bytes(proto_text(is_tls))],
            ),
    {
        proof {
            lemma_names();
            lemma_ip_text_visible(client_ip);
        }
        let ip_str = client_ip.to_text();
        header_set(headers, "x-real-ip", ip_str.as_str());
        header_set(headers, "x-forwarded-for", ip_str.as_str());
        let proto = if is_tls {
            "https"
        } else {
            "http"
        };
        header_set(headers, "x-forwarded-proto", proto);
    }

    /// Adds the forwarding headers as [`add_proxy_headers`](Self::add_proxy_headers)
    /// does when the map has room for them; a map with too many names for
    /// that is left as it is. Returns whether the headers were added.
    pub fn add_proxy_headers_if_room(
        headers: &mut HeaderMap,
        client_ip: IpAddress,
        is_tls: bool,
    ) -> (added: bool)
        ensures
            header_fields(*old(headers)).dom().finite(),
            added == (header_fields(*old(headers)).dom().len() + 2 <= HEADER_NAME_ROOM),
            added ==> header_fields(*final(headers)) == header_fields(*old(headers)).insert(
                "x-real-ip"@,
                seq![ascii_bytes(ip_text(client_ip))],
            ).insert("x-forwarded-for"@, seq![ascii_bytes(ip_text(client_ip))]).insert(
                "x-forwarded-proto"@,
                seq![ascii_bytes(proto_text(is_tls))],
            ),
            !added ==> header_fields(*final(headers)) == header_fields(*old(headers)),
    {
        let count = header_name_count(headers);
        if count <= HEADER_NAME_ROOM - 2 {
            Self::add_proxy_headers(headers, client_ip, is_tls);
            true
        } else {
            false
        }
    }

    /// Drops the headers that only concern the client's connection; keeps
    /// `Connection` only for a WebSocket upgrade.
    pub fn strip_hop_by_hop(headers: &mut HeaderMap)
        ensures
            header_fields(*final(headers)) == if websocket_fields(
                without_hop_by_hop(header_fields(*old(headers))),
            ) {
                without_hop_by_hop(header_fields(*old(headers)))
            } else {
                without_hop_by_hop(header_fields(*old(headers))).remove("connection"@)
            },
    {
        proof {
            lemma_names();
        }
        header_remove(headers, "proxy-authorization");
        header_remove(headers, "proxy-authenticate");
        header_remove(headers, "te");
        header_remove(headers, "transfer-encoding");
        header_remove(headers, "trailer");
        header_remove(headers, "proxy-connection");
        if !Self::is_websocket(headers) {
            header_remove(headers, "connection");
        }
    }
}

} // verus!
