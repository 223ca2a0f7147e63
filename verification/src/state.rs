//! The daemon's central state and its handling of client requests.
use vstd::prelude::*;

use tokio::sync::broadcast::Sender;
use tokio_util::sync::CancellationToken;

use crate::domain::{is_valid_domain, validate_domain};
use crate::ipc::{DnsEvent, IpcRequest, IpcResponse};
use crate::net::SocketTarget;
use crate::rule::DnsRule;
use crate::shared_store::RuleStore;
use crate::store::{opt_view, views};
use crate::store_model::StoreModel;
use crate::rule::DnsRuleView;
use crate::text::{concat, concat3, lowercase, str_equals, to_lower};

verus! {

#[verifier::external_type_specification]
#[verifier::external_body]
#[verifier::reject_recursive_types(T)]
pub struct ExSender<T>(Sender<T>);

#[verifier::external_type_specification]
#[verifier::external_body]
pub struct ExCancellationToken(CancellationToken);

/// `tokio::sync::broadcast::channel`: the sending half of a new broadcast
/// channel that holds up to `capacity` events (it panics on 0 or on more
/// than `usize::MAX / 2`, hence the bound).
#[verifier::external_body]
fn event_channel(capacity: usize) -> Sender<DnsEvent>
    requires
        0 < capacity <= usize::MAX / 2,
{
    tokio::sync::broadcast::channel(capacity).0
}

/// `broadcast::Sender::send`: hands `event` to every current subscriber;
/// true when there was at least one. Whether there is one depends on the
/// other tasks, so nothing is promised of the result.
#[verifier::external_body]
fn send_event(events: &Sender<DnsEvent>, event: DnsEvent) -> bool {
    events.send(event).is_ok()
}

/// `CancellationToken::cancel`: asks every task holding the token to stop.
#[verifier::external_body]
fn cancel_token(token: &CancellationToken) {
    token.cancel()
}

/// How many events the channel holds for a slow subscriber.
pub const EVENT_CAPACITY: usize = 64;

/// The daemon's central state.
pub struct AppState {
    pub store: RuleStore,
    pub events: Sender<DnsEvent>,
    pub token: CancellationToken,
}

/// The saved form of the persistent rules.
pub struct DnsConfig {
    pub rules: Vec<DnsRule>,
}

impl DnsConfig {
    pub fn new(rules: Vec<DnsRule>) -> (r: DnsConfig)
        ensures
            r.rules == rules,
    {
        DnsConfig { rules }
    }
}

impl Default for DnsConfig {
    fn default() -> (r: Self)
        ensures
            r.rules@.len() == 0,
    {
        DnsConfig { rules: Vec::new() }
    }
}

/// The message for a domain that fails validation.
pub open spec fn invalid_domain_message(domain: Seq<char>) -> Seq<char> {
    "Invalid domain name: "@ + domain
}

/// The message for a removal that found no rule.
pub open spec fn no_rule_message(domain: Seq<char>) -> Seq<char> {
    "No rule found for '"@ + domain + "'"@
}

/// The message for an ephemeral removal that found no rule.
pub open spec fn no_ephemeral_rule_message(domain: Seq<char>) -> Seq<char> {
    "No ephemeral rule found for '"@ + domain + "'"@
}

pub open spec fn is_error_with(r: IpcResponse, msg: Seq<char>) -> bool {
    r matches IpcResponse::Error(m) && m@ == msg
}

/// What `handle` answers, for every outcome of the store operations it makes
/// (the store is shared, so each outcome is stated for some well-formed
/// snapshot of it).
pub open spec fn handled(request: IpcRequest, r: IpcResponse) -> bool {
    match request {
        IpcRequest::Add { domain, .. } | IpcRequest::AddEphemeral { domain, .. } => {
            if is_valid_domain(domain@) {
                r == IpcResponse::Success
            } else {
                is_error_with(r, invalid_domain_message(domain@))
            }
        },
        IpcRequest::Remove { domain } => {
            if is_valid_domain(domain@) {
                exists|m: StoreModel|
                    m.wf() && if m.removed(lowercase(domain@)) is Some {
                        r == IpcResponse::Success
                    } else {
                        is_error_with(r, no_rule_message(lowercase(domain@)))
                    }
            } else {
                is_error_with(r, invalid_domain_message(domain@))
            }
        },
        IpcRequest::RemoveEphemeral { domain } => {
            if is_valid_domain(domain@) {
                exists|m: StoreModel|
                    m.wf() && if m.removed_ephemeral(lowercase(domain@)) is Some {
                        r == IpcResponse::Success
                    } else {
                        is_error_with(r, no_ephemeral_rule_message(lowercase(domain@)))
                    }
            } else {
                is_error_with(r, invalid_domain_message(domain@))
            }
        },
        IpcRequest::List => r matches IpcResponse::Rules(rules) && exists|m: StoreModel|
            m.wf() && m.lists_all(views(rules@)),
        IpcRequest::Resolve { domain } => {
            if is_valid_domain(domain@) {
                r matches IpcResponse::Resolved(found) && exists|m: StoreModel|
                    m.wf() && opt_view(found) == m.resolve(lowercase(domain@))
            } else {
                is_error_with(r, invalid_domain_message(domain@))
            }
        },
        IpcRequest::Status => r matches IpcResponse::Status { running, rule_count } && running
            && exists|m: StoreModel| m.wf() && rule_count == m.len(),
        IpcRequest::Stop => r == IpcResponse::Success,
        IpcRequest::Subscribe => r == IpcResponse::Success,
    }
}

/// The texts of strings.
pub open spec fn texts_of(v: Seq<String>) -> Seq<Seq<char>> {
    v.map_values(|s: String| s@)
}

/// No text occurs twice.
pub open spec fn distinct_texts(v: Seq<Seq<char>>) -> bool {
    forall|i: int, j: int| 0 <= i < j < v.len() ==> v[i] != v[j]
}

/// The domains of rules, in order.
pub open spec fn domains_of(s: Seq<DnsRuleView>) -> Seq<Seq<char>> {
    s.map_values(|r: DnsRuleView| r.domain)
}

/// `d` holds each domain of the rules `s`, once, and nothing else.
pub open spec fn lists_each_domain_once(d: Seq<Seq<char>>, s: Seq<DnsRuleView>) -> bool {
    &&& distinct_texts(d)
    &&& forall|k: int| 0 <= k < d.len() ==> domains_of(s).contains(#[trigger] d[k])
    &&& forall|j: int| 0 <= j < s.len() ==> d.contains(#[trigger] domains_of(s)[j])
}

impl AppState {
    pub fn new(token: CancellationToken) -> (r: AppState)
        ensures
            r.token == token,
    {
        AppState { store: RuleStore::new(), events: event_channel(EVENT_CAPACITY), token }
    }

    /// Sends `event` to the subscribers; true when there was at least one.
    pub fn dispatch(&self, event: DnsEvent) -> bool {
        send_event(&self.events, event)
    }

    /// The persistent rules of the current snapshot.
    pub fn snapshot_permanent(&self) -> (r: Vec<DnsRule>)
        ensures
            exists|m: StoreModel| m.wf() && m.lists_persistent(views(r@)),
    {
        self.store.snapshot_persistent()
    }

    /// The domains of every rule of the current snapshot, ephemeral and
    /// persistent, each once ([`domains_once`] of the snapshot's rules).
    pub fn snapshot_all_domains(&self) -> (r: Vec<String>)
        ensures
            exists|m: StoreModel, s: Seq<DnsRuleView>|
                m.wf() && m.lists_all(s) && lists_each_domain_once(texts_of(r@), s),
    {
        let rules = self.store.snapshot_all();
        let out = domains_once(&rules);
        proof {
            let m = choose|m: StoreModel| m.wf() && m.lists_all(views(rules@));
            assert(m.wf() && m.lists_all(views(rules@)) && lists_each_domain_once(
                texts_of(out@),
                views(rules@),
            ));
        }
        out
    }
}

/// The domains of `rules`, each once, in the order they first occur.
pub fn domains_once(rules: &Vec<DnsRule>) -> (r: Vec<String>)
    ensures
        lists_each_domain_once(texts_of(r@), views(rules@)),
{
    let mut out: Vec<String> = Vec::new();
    let ghost mut origin: Seq<int> = Seq::empty();
    let mut i: usize = 0;
    while i < rules.len()
        invariant
            0 <= i <= rules@.len(),
            distinct_texts(texts_of(out@)),
            origin.len() == out@.len(),
            forall|k: int|
                0 <= k < out@.len() ==> 0 <= #[trigger] origin[k] < i && texts_of(out@)[k]
                    == rules@[origin[k]].domain@,
            forall|j: int|
                0 <= j < i ==> texts_of(out@).contains(#[trigger] rules@[j].domain@),
        decreases rules@.len() - i,
    {
        let d = &rules[i].domain;
        let mut seen = false;
        let mut k: usize = 0;
        while k < out.len()
            invariant
                0 <= k <= out@.len(),
                seen == exists|q: int| 0 <= q < k && texts_of(out@)[q] == d@,
            decreases out@.len() - k,
        {
            assert(texts_of(out@)[k as int] == out@[k as int]@);
            if str_equals(out[k].as_str(), d.as_str()) {
                seen = true;
            }
            k = k + 1;
        }
        let ghost before = texts_of(out@);
        if !seen {
            out.push(d.clone());
            proof {
                origin = origin.push(i as int);
            }
            assert(texts_of(out@) =~= before.push(d@));
            assert(texts_of(out@)[before.len() as int] == rules@[i as int].domain@);
            assert forall|j: int| 0 <= j < i implies texts_of(out@).contains(
                #[trigger] rules@[j].domain@,
            ) by {
                assert(before.contains(rules@[j].domain@));
                let q = choose|q: int| 0 <= q < before.len() && before[q] == rules@[j].domain@;
                assert(texts_of(out@)[q] == before[q]);
            }
            assert forall|k: int| 0 <= k < out@.len() implies 0 <= #[trigger] origin[k] < i
                + 1 && texts_of(out@)[k] == rules@[origin[k]].domain@ by {
                if k < before.len() {
                    assert(texts_of(out@)[k] == before[k]);
                }
            }
        }
        assert(texts_of(out@).contains(rules@[i as int].domain@)) by {
            if seen {
                let q = choose|q: int| 0 <= q < out@.len() && texts_of(out@)[q] == d@;
            }
        }
        i = i + 1;
    }
    proof {
        let s = views(rules@);
        let d = texts_of(out@);
        assert forall|k: int| 0 <= k < d.len() implies domains_of(s).contains(#[trigger] d[k]) by {
            let j = origin[k];
            assert(domains_of(s)[j] == rules@[j].domain@);
        }
        assert forall|j: int| 0 <= j < s.len() implies d.contains(#[trigger] domains_of(s)[j]) by {
            assert(domains_of(s)[j] == rules@[j].domain@);
            assert(texts_of(out@).contains(rules@[j].domain@));
        }
        assert(lists_each_domain_once(d, s));
    }
    out
}

impl AppState {
    /// Handles one client request by carrying out its [`request_plan`]:
    /// domains are validated first (an invalid one is answered with an
    /// error, with no store operation and no event), then lower-cased.
    /// Adding and removing rules emits the matching event
    /// ([`added_outcome`], [`removal_outcome`]); `List` answers every active
    /// rule, ephemeral and persistent; `Stop` emits `DaemonStopped` and
    /// cancels the daemon's token.
    pub fn handle(&self, request: IpcRequest) -> (r: IpcResponse)
        ensures
            handled(request, r),
    {
        let plan = request_plan(&request);
        match plan {
            RequestPlan::Reply(r) => r,
            RequestPlan::Add { rule, ephemeral } => {
                let added = if ephemeral {
                    self.store.add_ephemeral(rule)
                } else {
                    self.store.add(rule)
                };
                let (response, event) = added_outcome(added, ephemeral);
                let _ = send_event(&self.events, event);
                response
            },
            RequestPlan::Remove { domain, ephemeral } => {
                let removed = if ephemeral {
                    self.store.remove_ephemeral(domain.as_str())
                } else {
                    self.store.remove(domain.as_str())
                };
                let (response, event) = removal_outcome(domain.as_str(), removed, ephemeral);
                match event {
                    Some(e) => {
                        let _ = send_event(&self.events, e);
                    },
                    None => {},
                }
                response
            },
            RequestPlan::Resolve(domain) => IpcResponse::Resolved(self.store.resolve(domain.as_str())),
            RequestPlan::List => IpcResponse::Rules(self.store.snapshot_all()),
            RequestPlan::Status => IpcResponse::Status { running: true, rule_count: self.store.len() },
            RequestPlan::Stop => {
                let _ = send_event(&self.events, DnsEvent::DaemonStopped);
                cancel_token(&self.token);
                IpcResponse::Success
            },
        }
    }
}

/// What the daemon does for a request.
pub enum RequestPlan {
    /// Answer at once, with no store operation and no event.
    Reply(IpcResponse),
    /// Add this rule (to the ephemeral layer when `ephemeral`), then answer
    /// and announce as [`added_outcome`] says.
    Add { rule: DnsRule, ephemeral: bool },
    /// Remove the rule for this domain (the ephemeral one when
    /// `ephemeral`), then answer and announce as [`removal_outcome`] says.
    Remove { domain: String, ephemeral: bool },
    /// Answer the store's rule for this domain.
    Resolve(String),
    /// Answer every active rule.
    List,
    /// Answer that the daemon runs, with the number of its rules.
    Status,
    /// Announce `DaemonStopped`, cancel the daemon's token, answer success.
    Stop,
}

/// The rule a request for `domain` adds: under the lower-cased domain.
pub open spec fn requested_rule(domain: Seq<char>, target: SocketTarget, https: bool) -> DnsRuleView {
    DnsRuleView { domain: lowercase(domain), target, https }
}

/// `p` is the plan for `request`. A request whose domain is not valid is
/// answered with an error at once, with no store operation and no event;
/// every valid domain is lower-cased before the store sees it.
pub open spec fn planned(request: IpcRequest, p: RequestPlan) -> bool {
    let refused = p matches RequestPlan::Reply(r) && is_error_with(
        r,
        invalid_domain_message(request_domain(request)),
    );
    match request {
        IpcRequest::Add { domain, target, https } => if is_valid_domain(domain@) {
            p matches RequestPlan::Add { rule, ephemeral } && !ephemeral && rule@ == requested_rule(
                domain@,
                target,
                https,
            )
        } else {
            refused
        },
        IpcRequest::AddEphemeral { domain, target, https } => if is_valid_domain(domain@) {
            p matches RequestPlan::Add { rule, ephemeral } && ephemeral && rule@ == requested_rule(
                domain@,
                target,
                https,
            )
        } else {
            refused
        },
        IpcRequest::Remove { domain } => if is_valid_domain(domain@) {
            p matches RequestPlan::Remove { domain: d, ephemeral } && !ephemeral && d@ == lowercase(
                domain@,
            )
        } else {
            refused
        },
        IpcRequest::RemoveEphemeral { domain } => if is_valid_domain(domain@) {
            p matches RequestPlan::Remove { domain: d, ephemeral } && ephemeral && d@ == lowercase(
                domain@,
            )
        } else {
            refused
        },
        IpcRequest::Resolve { domain } => if is_valid_domain(domain@) {
            p matches RequestPlan::Resolve(d) && d@ == lowercase(domain@)
        } else {
            refused
        },
        IpcRequest::List => p is List,
        IpcRequest::Status => p is Status,
        IpcRequest::Stop => p is Stop,
        IpcRequest::Subscribe => p == RequestPlan::Reply(IpcResponse::Success),
    }
}

/// The domain a request names (empty for one that names none).
pub open spec fn request_domain(request: IpcRequest) -> Seq<char> {
    match request {
        IpcRequest::Add { domain, .. } => domain@,
        IpcRequest::AddEphemeral { domain, .. } => domain@,
        IpcRequest::Remove { domain } => domain@,
        IpcRequest::RemoveEphemeral { domain } => domain@,
        IpcRequest::Resolve { domain } => domain@,
        _ => Seq::empty(),
    }
}

/// The answer to a domain that is not valid.
fn invalid_domain_reply(domain: &str) -> (r: RequestPlan)
    ensures
        r matches RequestPlan::Reply(x) && is_error_with(x, invalid_domain_message(domain@)),
{
    RequestPlan::Reply(IpcResponse::Error(concat("Invalid domain name: ", domain)))
}

/// The plan for a request.
pub fn request_plan(request: &IpcRequest) -> (p: RequestPlan)
    ensures
        planned(*request, p),
{
    match request {
        IpcRequest::Add { domain, target, https } => {
            if !validate_domain(domain.as_str()) {
                return invalid_domain_reply(domain.as_str());
            }
            let rule = DnsRule::new(to_lower(domain.as_str()), *target, *https);
            RequestPlan::Add { rule, ephemeral: false }
        },
        IpcRequest::AddEphemeral { domain, target, https } => {
            if !validate_domain(domain.as_str()) {
                return invalid_domain_reply(domain.as_str());
            }
            let rule = DnsRule::new(to_lower(domain.as_str()), *target, *https);
            RequestPlan::Add { rule, ephemeral: true }
        },
        IpcRequest::Remove { domain } => {
            if !validate_domain(domain.as_str()) {
                return invalid_domain_reply(domain.as_str());
            }
            RequestPlan::Remove { domain: to_lower(domain.as_str()), ephemeral: false }
        },
        IpcRequest::RemoveEphemeral { domain } => {
            if !validate_domain(domain.as_str()) {
                return invalid_domain_reply(domain.as_str());
            }
            RequestPlan::Remove { domain: to_lower(domain.as_str()), ephemeral: true }
        },
        IpcRequest::Resolve { domain } => {
            if !validate_domain(domain.as_str()) {
                return invalid_domain_reply(domain.as_str());
            }
            RequestPlan::Resolve(to_lower(domain.as_str()))
        },
        IpcRequest::List => RequestPlan::List,
        IpcRequest::Status => RequestPlan::Status,
        IpcRequest::Stop => RequestPlan::Stop,
        IpcRequest::Subscribe => RequestPlan::Reply(IpcResponse::Success),
    }
}

/// What adding `rule` answers and announces: success, and `RuleAdded` (or
/// `EphemeralAdded`) of the rule.
pub fn added_outcome(rule: DnsRule, ephemeral: bool) -> (r: (IpcResponse, DnsEvent))
    ensures
        r.0 == IpcResponse::Success,
        r.1 == if ephemeral {
            DnsEvent::EphemeralAdded(rule)
        } else {
            DnsEvent::RuleAdded(rule)
        },
{
    if ephemeral {
        (IpcResponse::Success, DnsEvent::EphemeralAdded(rule))
    } else {
        (IpcResponse::Success, DnsEvent::RuleAdded(rule))
    }
}

/// What removing the rule for `domain` answers and announces, given what
/// the store handed back: success and `RuleRemoved` (or `EphemeralRemoved`)
/// of the removed rule; or, when there was none, an error naming the
/// domain and no event.
pub fn removal_outcome(domain: &str, removed: Option<DnsRule>, ephemeral: bool) -> (r: (
    IpcResponse,
    Option<DnsEvent>,
))
    ensures
        match removed {
            Some(x) => r.0 == IpcResponse::Success && r.1 == Some(
                if ephemeral {
                    DnsEvent::EphemeralRemoved(x)
                } else {
                    DnsEvent::RuleRemoved(x)
                },
            ),
            None => r.1 is None && is_error_with(
                r.0,
                if ephemeral {
                    no_ephemeral_rule_message(domain@)
                } else {
                    no_rule_message(domain@)
                },
            ),
        },
{
    match removed {
        Some(x) => {
            let e = if ephemeral {
                DnsEvent::EphemeralRemoved(x)
            } else {
                DnsEvent::RuleRemoved(x)
            };
            (IpcResponse::Success, Some(e))
        },
        None => {
            let m = if ephemeral {
                concat3("No ephemeral rule found for '", domain, "'")
            } else {
                concat3("No rule found for '", domain, "'")
            };
            (IpcResponse::Error(m), None)
        },
    }
}

} // verus!
