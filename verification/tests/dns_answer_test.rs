use sidedns_core::dns_answer::{
    failure_reply, forward_reply, fully_qualified, is_address_query, local_answer, query_domain,
    QueryType, ResponseCode, UpstreamOutcome, DNS_RECORD_TTL_SECONDS,
};
use sidedns_core::{proxy_listen_addr, IpAddress};

#[test]
fn query_domain_trims_dots_and_lowercases() {
    assert_eq!(query_domain("API.Local."), "api.local");
    assert_eq!(query_domain("api.local.."), "api.local");
    assert_eq!(query_domain("api.local"), "api.local");
    assert_eq!(query_domain("."), "");
    assert_eq!(query_domain("ÉTÉ.local."), "été.local");
}

#[test]
fn address_queries() {
    assert!(is_address_query(QueryType::A));
    assert!(is_address_query(QueryType::Aaaa));
    assert!(!is_address_query(QueryType::Other));
}

#[test]
fn local_a_answer_points_at_the_proxy() {
    let ip = proxy_listen_addr().ip();
    let reply = local_answer(ip, "api.local", QueryType::A);
    assert_eq!(reply.code, ResponseCode::NoError);
    assert!(reply.authoritative);
    let record = reply.record.unwrap();
    assert_eq!(record.name, "api.local.");
    assert_eq!(record.ttl, DNS_RECORD_TTL_SECONDS);
    assert_eq!(record.ttl, 10);
    assert_eq!(record.address, IpAddress::V4([127, 0, 0, 42]));
}

#[test]
fn local_aaaa_answer_for_ipv4_proxy_is_empty() {
    let reply = local_answer(proxy_listen_addr().ip(), "api.local", QueryType::Aaaa);
    assert_eq!(reply.code, ResponseCode::NoError);
    assert!(reply.authoritative);
    assert!(reply.record.is_none());
}

#[test]
fn local_answers_for_ipv6() {
    let v6 = IpAddress::V6([0, 0, 0, 0, 0, 0, 0, 1]);
    assert!(local_answer(v6, "api.local", QueryType::Aaaa).record.is_some());
    assert!(local_answer(v6, "api.local", QueryType::A).record.is_none());
}

#[test]
fn forwarded_reply_codes() {
    assert_eq!(forward_reply(UpstreamOutcome::Answered).code, ResponseCode::NoError);
    assert_eq!(forward_reply(UpstreamOutcome::NoRecords).code, ResponseCode::NxDomain);
    assert_eq!(forward_reply(UpstreamOutcome::Failed).code, ResponseCode::ServFail);
    assert!(!forward_reply(UpstreamOutcome::Answered).authoritative);
    assert_eq!(failure_reply().code, ResponseCode::ServFail);
}

#[test]
fn fully_qualified_appends_dot() {
    assert_eq!(fully_qualified("api.local"), "api.local.");
}
