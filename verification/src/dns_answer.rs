//! How the DNS server answers a query: locally, for the domains that a rule
//! covers, or with what the upstream resolver says.
use vstd::prelude::*;

use crate::net::IpAddress;
use crate::text::{chars_of, lowercase, push_char, to_lower};

verus! {

/// How long clients may keep a local answer, in seconds.
pub const DNS_RECORD_TTL_SECONDS: u32 = 10;

/// The kind of record a query asks for, as far as the server tells kinds
/// apart.
#[derive(Clone, Copy, Debug, PartialEq, Eq)]
pub enum QueryType {
    A,
    Aaaa,
    /// MX, TXT, SRV and every other kind.
    Other,
}

/// The response codes the server gives.
#[derive(Clone, Copy, Debug, PartialEq, Eq)]
pub enum ResponseCode {
    NoError,
    NxDomain,
    ServFail,
}

/// How an upstream lookup ended.
#[derive(Clone, Copy, Debug, PartialEq, Eq)]
pub enum UpstreamOutcome {
    /// It found records, which are passed on as they are.
    Answered,
    /// The domain has no records of the kind asked.
    NoRecords,
    /// Any other failure.
    Failed,
}

/// One address record of a local answer.
pub struct AddressRecord {
    pub name: String,
    pub ttl: u32,
    pub address: IpAddress,
}

/// The reply to a query.
pub struct DnsReply {
    pub code: ResponseCode,
    pub authoritative: bool,
    /// The record of a local answer; `None` for an empty answer, and for a
    /// forwarded one (whose records come from upstream).
    pub record: Option<AddressRecord>,
}

/// `s` without the dots at its end.
pub open spec fn trim_trailing_dots(s: Seq<char>) -> Seq<char>
    decreases s.len(),
{
    if s.len() > 0 && s.last() == '.' {
        trim_trailing_dots(s.drop_last())
    } else {
        s
    }
}

/// The domain a query is about: its name without trailing dots, in lower
/// case.
pub fn query_domain(name: &str) -> (r: String)
    ensures
        r@ == lowercase(trim_trailing_dots(name@)),
{
    let v = chars_of(name);
    let mut end = v.len();
    assert(v@.take(end as int) =~= name@);
    while end > 0 && v[end - 1] == '.'
        invariant
            0 <= end <= v.len(),
            v@ == name@,
            trim_trailing_dots(v@.take(end as int)) == trim_trailing_dots(name@),
        decreases end,
    {
        assert(v@.take(end as int).drop_last() =~= v@.take(end - 1));
        end = end - 1;
    }
    let mut t = String::new();
    let mut i: usize = 0;
    while i < end
        invariant
            0 <= i <= end <= v.len(),
            t@ == v@.take(i as int),
        decreases end - i,
    {
        push_char(&mut t, v[i]);
        assert(v@.take(i + 1) =~= v@.take(i as int).push(v@[i as int]));
        i = i + 1;
    }
    assert(trim_trailing_dots(v@.take(end as int)) == v@.take(end as int));
    assert(t@ =~= v@.take(end as int));
    to_lower(t.as_str())
}

/// Only address queries (A and AAAA) are answered locally; everything else
/// goes upstream.
pub fn is_address_query(q: QueryType) -> (r: bool)
    ensures
        r == (q is A || q is Aaaa),
{
    match q {
        QueryType::A | QueryType::Aaaa => true,
        QueryType::Other => false,
    }
}

/// Whether `name` is accepted as a DNS name in ASCII form, as hickory's
/// `Name::from_ascii` decides (a function of the text alone).
pub uninterp spec fn accepted_dns_name(name: Seq<char>) -> bool;

/// `hickory_proto::rr::Name::from_ascii`: whether the text parses as a DNS
/// name.
#[verifier::external_body]
pub(crate) fn parses_as_dns_name(name: &str) -> (r: bool)
    ensures
        r == accepted_dns_name(name@),
{
    hickory_server::proto::rr::Name::from_ascii(name).is_ok()
}

/// The fully qualified form of a domain: with a dot at its end.
pub fn fully_qualified(domain: &str) -> (r: String)
    ensures
        r@ == domain@.push('.'),
{
    let mut r = String::new();
    r.append(domain);
    push_char(&mut r, '.');
    r
}

/// The address a local answer gives for a query of kind `q`: the proxy's
/// address when its family is the one asked for, none otherwise.
pub open spec fn answered_address(ip: IpAddress, q: QueryType) -> Option<IpAddress> {
    match (ip, q) {
        (IpAddress::V4(_), QueryType::A) => Some(ip),
        (IpAddress::V6(_), QueryType::Aaaa) => Some(ip),
        _ => None,
    }
}

/// `r` is the local answer for `domain`: authoritative, without error, with
/// one record for `domain.` pointing at `ip` when `ip` is of the family
/// asked for, and no record otherwise.
pub open spec fn is_local_reply(r: DnsReply, ip: IpAddress, domain: Seq<char>, q: QueryType) -> bool {
    &&& r.code == ResponseCode::NoError
    &&& r.authoritative
    &&& answered_address(ip, q) is None ==> r.record is None
    &&& answered_address(ip, q) matches Some(a) ==> (r.record matches Some(rec) && rec.address == a
        && rec.name@ == domain.push('.') && rec.ttl == DNS_RECORD_TTL_SECONDS)
}

/// The local answer for `domain` from `ip`.
pub fn local_answer(ip: IpAddress, domain: &str, q: QueryType) -> (r: DnsReply)
    ensures
        is_local_reply(r, ip, domain@, q),
{
    let wanted = match (ip, q) {
        (IpAddress::V4(_), QueryType::A) => true,
        (IpAddress::V6(_), QueryType::Aaaa) => true,
        _ => false,
    };
    let record = if wanted {
        Some(AddressRecord { name: fully_qualified(domain), ttl: DNS_RECORD_TTL_SECONDS, address: ip })
    } else {
        None
    };
    DnsReply { code: ResponseCode::NoError, authoritative: true, record }
}

/// The code of a forwarded reply: no error when upstream found records,
/// NXDOMAIN when it found none, SERVFAIL when it failed.
pub fn forward_reply(outcome: UpstreamOutcome) -> (r: DnsReply)
    ensures
        r.code == match outcome {
            UpstreamOutcome::Answered => ResponseCode::NoError,
            UpstreamOutcome::NoRecords => ResponseCode::NxDomain,
            UpstreamOutcome::Failed => ResponseCode::ServFail,
        },
        !r.authoritative,
        r.record is None,
{
    let code = match outcome {
        UpstreamOutcome::Answered => ResponseCode::NoError,
        UpstreamOutcome::NoRecords => ResponseCode::NxDomain,
        UpstreamOutcome::Failed => ResponseCode::ServFail,
    };
    DnsReply { code, authoritative: false, record: None }
}

/// The reply when answering fails: SERVFAIL, with nothing in it.
/// `r` is the failure answer: a server failure, not authoritative, with
/// no record.
pub open spec fn is_failure_reply(r: DnsReply) -> bool {
    r.code == ResponseCode::ServFail && !r.authoritative && r.record is None
}

pub fn failure_reply() -> (r: DnsReply)
    ensures
        r.code == ResponseCode::ServFail,
        !r.authoritative,
        r.record is None,
{
    DnsReply { code: ResponseCode::ServFail, authoritative: false, record: None }
}

} // verus!
