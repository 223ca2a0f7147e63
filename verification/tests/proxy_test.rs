use hyper::header::{HeaderName, HeaderValue};
use hyper::HeaderMap;
use sidedns_core::proxy::{route_for_rule, tunnels_upgrade, ProxyRoute, ProxyServer};
use sidedns_core::{DnsRule, IpAddress, SocketTarget};

fn headers(pairs: &[(&str, &str)]) -> HeaderMap {
    let mut map = HeaderMap::new();
    for (k, v) in pairs {
        map.insert(
            HeaderName::from_bytes(k.as_bytes()).unwrap(),
            HeaderValue::from_str(v).unwrap(),
        );
    }
    map
}

fn localhost() -> IpAddress {
    IpAddress::V4([127, 0, 0, 1])
}

#[test]
fn ws_upgrade_and_connection_upgrade() {
    let h = headers(&[("upgrade", "websocket"), ("connection", "Upgrade")]);
    assert!(ProxyServer::is_websocket(&h));
}

#[test]
fn ws_upgrade_mixed_case() {
    let h = headers(&[
        ("upgrade", "WebSocket"),
        ("connection", "keep-alive, Upgrade"),
    ]);
    assert!(ProxyServer::is_websocket(&h));
}

#[test]
fn ws_false_without_upgrade_header() {
    let h = headers(&[("connection", "Upgrade")]);
    assert!(!ProxyServer::is_websocket(&h));
}

#[test]
fn ws_false_without_connection_header() {
    let h = headers(&[("upgrade", "websocket")]);
    assert!(!ProxyServer::is_websocket(&h));
}

#[test]
fn ws_false_for_h2c_upgrade() {
    let h = headers(&[("upgrade", "h2c"), ("connection", "Upgrade")]);
    assert!(!ProxyServer::is_websocket(&h));
}

#[test]
fn ws_false_for_empty_headers() {
    assert!(!ProxyServer::is_websocket(&HeaderMap::new()));
}

#[test]
fn extract_host_strips_port() {
    let h = headers(&[("host", "api.local:8080")]);
    assert_eq!(ProxyServer::extract_host(&h), Some("api.local".into()));
}

#[test]
fn extract_host_without_port() {
    let h = headers(&[("host", "api.local")]);
    assert_eq!(ProxyServer::extract_host(&h), Some("api.local".into()));
}

#[test]
fn extract_host_lowercases() {
    let h = headers(&[("host", "API.LOCAL:80")]);
    assert_eq!(ProxyServer::extract_host(&h), Some("api.local".into()));
}

#[test]
fn extract_host_none_when_missing() {
    assert_eq!(ProxyServer::extract_host(&HeaderMap::new()), None);
}

#[test]
fn proxy_headers_http_proto() {
    let mut h = HeaderMap::new();
    ProxyServer::add_proxy_headers(&mut h, localhost(), false);
    assert_eq!(h.get("X-Forwarded-Proto").unwrap(), "http");
}

#[test]
fn proxy_headers_https_proto() {
    let mut h = HeaderMap::new();
    ProxyServer::add_proxy_headers(&mut h, localhost(), true);
    assert_eq!(h.get("X-Forwarded-Proto").unwrap(), "https");
}

#[test]
fn proxy_headers_sets_real_ip_and_forwarded_for() {
    let mut h = HeaderMap::new();
    let ip = IpAddress::V4([10, 0, 0, 1]);
    ProxyServer::add_proxy_headers(&mut h, ip, false);
    assert_eq!(h.get("X-Real-IP").unwrap(), "10.0.0.1");
    assert_eq!(h.get("X-Forwarded-For").unwrap(), "10.0.0.1");
}

#[test]
fn proxy_headers_ipv6() {
    let mut h = HeaderMap::new();
    let ip = IpAddress::V6([0, 0, 0, 0, 0, 0, 0, 1]);
    ProxyServer::add_proxy_headers(&mut h, ip, false);
    assert!(h.get("X-Real-IP").is_some());
    assert!(h.get("X-Forwarded-For").is_some());
}

#[test]
fn strip_removes_proxy_authorization() {
    let mut h = headers(&[("proxy-authorization", "Basic xyz")]);
    ProxyServer::strip_hop_by_hop(&mut h);
    assert!(h.get("proxy-authorization").is_none());
}

#[test]
fn strip_removes_transfer_encoding() {
    let mut h = headers(&[("transfer-encoding", "chunked")]);
    ProxyServer::strip_hop_by_hop(&mut h);
    assert!(h.get("transfer-encoding").is_none());
}

#[test]
fn strip_removes_te() {
    let mut h = headers(&[("te", "trailers")]);
    ProxyServer::strip_hop_by_hop(&mut h);
    assert!(h.get("te").is_none());
}

#[test]
fn strip_removes_trailer() {
    let mut h = headers(&[("trailer", "Expires")]);
    ProxyServer::strip_hop_by_hop(&mut h);
    assert!(h.get("trailer").is_none());
}

#[test]
fn strip_removes_connection_for_plain_http() {
    let mut h = headers(&[
        ("connection", "keep-alive"),
        ("content-type", "application/json"),
    ]);
    ProxyServer::strip_hop_by_hop(&mut h);
    assert!(h.get("connection").is_none());
    assert!(h.get("content-type").is_some());
}

#[test]
fn strip_keeps_connection_upgrade_for_websocket() {
    let mut h = headers(&[("upgrade", "websocket"), ("connection", "Upgrade")]);
    ProxyServer::strip_hop_by_hop(&mut h);
    assert!(h.get("connection").is_some());
    assert!(h.get("upgrade").is_some());
}

#[test]
fn strip_preserves_unrelated_headers() {
    let mut h = headers(&[
        ("authorization", "Bearer token"),
        ("cookie", "session=abc"),
        ("content-type", "application/json"),
    ]);
    ProxyServer::strip_hop_by_hop(&mut h);
    assert!(h.get("authorization").is_some());
    assert!(h.get("cookie").is_some());
    assert!(h.get("content-type").is_some());
}

#[test]
fn strip_removes_proxy_connection() {
    let mut h = headers(&[("proxy-connection", "keep-alive")]);
    ProxyServer::strip_hop_by_hop(&mut h);
    assert!(h.get("proxy-connection").is_none());
}

#[test]
fn strip_noop_on_empty_headers() {
    let mut h = HeaderMap::new();
    ProxyServer::strip_hop_by_hop(&mut h);
    assert!(h.is_empty());
}

// Beyond the original's cases.

#[test]
fn proxy_headers_replace_existing_values() {
    let mut h = headers(&[("x-real-ip", "1.2.3.4"), ("x-forwarded-proto", "https")]);
    ProxyServer::add_proxy_headers(&mut h, IpAddress::V4([192, 168, 1, 20]), false);
    assert_eq!(h.get("x-real-ip").unwrap(), "192.168.1.20");
    assert_eq!(h.get_all("x-real-ip").iter().count(), 1);
    assert_eq!(h.get("x-forwarded-proto").unwrap(), "http");
}

#[test]
fn proxy_headers_ipv6_text_is_compressed() {
    let mut h = HeaderMap::new();
    ProxyServer::add_proxy_headers(&mut h, IpAddress::V6([0xfe80, 0, 0, 0, 0, 0, 0, 0x1a]), true);
    assert_eq!(h.get("x-forwarded-for").unwrap(), "fe80::1a");
}

#[test]
fn extract_host_none_for_non_ascii_value() {
    let mut h = HeaderMap::new();
    h.insert("host", HeaderValue::from_bytes(b"caf\xc3\xa9.local").unwrap());
    assert_eq!(ProxyServer::extract_host(&h), None);
}

#[test]
fn extract_host_keeps_text_before_first_colon() {
    let h = headers(&[("host", "Api.Local:80:90")]);
    assert_eq!(ProxyServer::extract_host(&h), Some("api.local".into()));
}

#[test]
fn ws_connection_upgrade_inside_longer_token_counts() {
    let h = headers(&[("upgrade", "websocket"), ("connection", "Keep-Alive,UPGRADE")]);
    assert!(ProxyServer::is_websocket(&h));
}

fn rule(https: bool, ip: IpAddress) -> DnsRule {
    DnsRule::new("api.local".to_string(), SocketTarget::new(ip, 3000), https)
}

#[test]
fn route_without_rule_is_bad_gateway() {
    assert!(matches!(
        route_for_rule("api.local", None, false, Some("/")),
        ProxyRoute::NoRule
    ));
}

#[test]
fn route_https_rule_over_plain_http_redirects() {
    match route_for_rule("api.local", Some(rule(true, localhost())), false, Some("/a?b=1")) {
        ProxyRoute::Redirect(l) => assert_eq!(l, "https://api.local/a?b=1"),
        _ => panic!("expected a redirect"),
    }
    match route_for_rule("api.local", Some(rule(true, localhost())), false, None) {
        ProxyRoute::Redirect(l) => assert_eq!(l, "https://api.local/"),
        _ => panic!("expected a redirect"),
    }
}

#[test]
fn route_https_rule_over_tls_forwards() {
    match route_for_rule("api.local", Some(rule(true, IpAddress::V4([10, 0, 0, 2]))), true, None) {
        ProxyRoute::Forward(t) => assert_eq!(t, SocketTarget::new(IpAddress::V4([10, 0, 0, 2]), 3000)),
        _ => panic!("expected forwarding"),
    }
}

#[test]
fn route_unspecified_targets_become_loopback() {
    match route_for_rule("api.local", Some(rule(false, IpAddress::V4([0, 0, 0, 0]))), false, None) {
        ProxyRoute::Forward(t) => assert_eq!(t, SocketTarget::new(localhost(), 3000)),
        _ => panic!("expected forwarding"),
    }
    match route_for_rule("api.local", Some(rule(false, IpAddress::V6([0; 8]))), true, None) {
        ProxyRoute::Forward(t) => {
            assert_eq!(t, SocketTarget::new(IpAddress::V6([0, 0, 0, 0, 0, 0, 0, 1]), 3000))
        },
        _ => panic!("expected forwarding"),
    }
}

#[test]
fn tunnel_needs_both_request_and_switching_protocols() {
    assert!(tunnels_upgrade(true, 101));
    assert!(!tunnels_upgrade(false, 101));
    assert!(!tunnels_upgrade(true, 200));
}

#[test]
fn proxy_headers_added_only_with_room() {
    let mut h = HeaderMap::new();
    assert!(ProxyServer::add_proxy_headers_if_room(&mut h, IpAddress::V4([10, 0, 0, 7]), true));
    assert_eq!(h.get("x-real-ip").unwrap(), "10.0.0.7");
    assert_eq!(h.get("x-forwarded-proto").unwrap(), "https");
    let mut big = HeaderMap::new();
    for i in 0..6552 {
        big.insert(HeaderName::from_bytes(format!("x-h{i}").as_bytes()).unwrap(), HeaderValue::from_static("v"));
    }
    assert!(!ProxyServer::add_proxy_headers_if_room(&mut big, IpAddress::V4([10, 0, 0, 7]), false));
    assert!(big.get("x-real-ip").is_none());
    assert_eq!(big.keys_len(), 6552);
}
