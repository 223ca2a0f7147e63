use sidedns_core::{
    added_outcome, removal_outcome, request_plan, AppState, DnsEvent, DnsRule, IpAddress, IpcRequest,
    IpcResponse, RequestPlan, SocketTarget,
};
use tokio_util::sync::CancellationToken;

fn addr(p: u16) -> SocketTarget {
    SocketTarget::new(IpAddress::V4([127, 0, 0, 1]), p)
}

fn state() -> (AppState, CancellationToken) {
    let token = CancellationToken::new();
    (AppState::new(token.clone()), token)
}

fn add(domain: &str, port: u16) -> IpcRequest {
    IpcRequest::Add { domain: domain.into(), target: addr(port), https: false }
}

#[test]
fn handle_add_returns_success() {
    let (s, _) = state();
    assert_eq!(s.handle(add("api.local", 3000)), IpcResponse::Success);
}

#[test]
fn handle_list_empty_initially() {
    let (s, _) = state();
    assert_eq!(s.handle(IpcRequest::List), IpcResponse::Rules(vec![]));
}

#[test]
fn handle_add_replaces_same_domain() {
    let (s, _) = state();
    s.handle(add("api.local", 3000));
    s.handle(add("API.local", 9000));
    let IpcResponse::Rules(r) = s.handle(IpcRequest::List) else { panic!() };
    assert_eq!(r.len(), 1);
    assert_eq!(r[0].domain, "api.local");
    assert_eq!(r[0].target.port(), 9000);
}

#[test]
fn handle_rejects_invalid_domain() {
    let (s, _) = state();
    assert_eq!(
        s.handle(add("bad_domain", 1)),
        IpcResponse::Error("Invalid domain name: bad_domain".into())
    );
    assert_eq!(s.handle(IpcRequest::List), IpcResponse::Rules(vec![]));
}

#[test]
fn handle_remove_existing_and_unknown() {
    let (s, _) = state();
    s.handle(add("api.local", 3000));
    assert_eq!(s.handle(IpcRequest::Remove { domain: "api.local".into() }), IpcResponse::Success);
    assert_eq!(
        s.handle(IpcRequest::Remove { domain: "ghost.local".into() }),
        IpcResponse::Error("No rule found for 'ghost.local'".into())
    );
    assert_eq!(
        s.handle(IpcRequest::RemoveEphemeral { domain: "ghost.local".into() }),
        IpcResponse::Error("No ephemeral rule found for 'ghost.local'".into())
    );
}

#[test]
fn handle_resolve_and_status() {
    let (s, _) = state();
    s.handle(add("api.local", 9090));
    let IpcResponse::Resolved(Some(r)) = s.handle(IpcRequest::Resolve { domain: "API.LOCAL".into() })
    else {
        panic!()
    };
    assert_eq!(r.target.port(), 9090);
    assert_eq!(s.handle(IpcRequest::Resolve { domain: "ghost.local".into() }), IpcResponse::Resolved(None));
    assert_eq!(s.handle(IpcRequest::Status), IpcResponse::Status { running: true, rule_count: 1 });
}

#[test]
fn handle_stop_cancels_token_and_announces() {
    let (s, token) = state();
    let mut events = s.events.subscribe();
    assert_eq!(s.handle(IpcRequest::Stop), IpcResponse::Success);
    assert!(token.is_cancelled());
    assert_eq!(events.try_recv().unwrap(), DnsEvent::DaemonStopped);
}

#[test]
fn handle_add_emits_rule_added() {
    let (s, _) = state();
    let mut events = s.events.subscribe();
    s.handle(IpcRequest::AddEphemeral { domain: "api.local".into(), target: addr(1), https: true });
    assert_eq!(
        events.try_recv().unwrap(),
        DnsEvent::EphemeralAdded(DnsRule::new("api.local".into(), addr(1), true))
    );
}

#[test]
fn snapshot_all_domains_lists_each_domain_once() {
    let (s, _) = state();
    s.store.add(DnsRule::new("api.local".into(), addr(1), false));
    s.store.add_ephemeral(DnsRule::new("api.local".into(), addr(2), false));
    s.store.add(DnsRule::new("*.dev.local".into(), addr(3), false));
    let mut d = s.snapshot_all_domains();
    d.sort();
    assert_eq!(d, vec!["*.dev.local".to_string(), "api.local".to_string()]);
}

#[test]
fn handle_list_shows_ephemeral_and_persistent_rules() {
    let (s, _) = state();
    s.handle(add("api.local", 3000));
    s.handle(IpcRequest::AddEphemeral {
        domain: "run.local".into(),
        target: SocketTarget::new(IpAddress::V4([127, 0, 0, 1]), 5000),
        https: false,
    });
    let IpcResponse::Rules(r) = s.handle(IpcRequest::List) else { panic!() };
    let domains: Vec<&str> = r.iter().map(|x| x.domain.as_str()).collect();
    assert_eq!(domains, vec!["run.local", "api.local"]);
}

#[test]
fn request_plan_lower_cases_and_refuses_invalid_domains() {
    match request_plan(&add("API.Local", 3000)) {
        RequestPlan::Add { rule, ephemeral } => {
            assert!(!ephemeral);
            assert_eq!(rule, DnsRule::new("api.local".into(), addr(3000), false));
        },
        _ => panic!("expected an addition"),
    }
    match request_plan(&IpcRequest::RemoveEphemeral { domain: "Run.Local".into() }) {
        RequestPlan::Remove { domain, ephemeral } => {
            assert!(ephemeral);
            assert_eq!(domain, "run.local");
        },
        _ => panic!("expected a removal"),
    }
    for bad in [
        add("*.local", 1),
        IpcRequest::Remove { domain: "bad_domain".into() },
        IpcRequest::Resolve { domain: "bad_domain".into() },
    ] {
        let domain = match &bad {
            IpcRequest::Add { domain, .. } | IpcRequest::Remove { domain } | IpcRequest::Resolve { domain } => domain.clone(),
            _ => unreachable!(),
        };
        match request_plan(&bad) {
            RequestPlan::Reply(r) => assert_eq!(r, IpcResponse::Error(format!("Invalid domain name: {domain}"))),
            _ => panic!("expected a refusal"),
        }
    }
    assert!(matches!(request_plan(&IpcRequest::Subscribe), RequestPlan::Reply(IpcResponse::Success)));
    assert!(matches!(request_plan(&IpcRequest::List), RequestPlan::List));
}

#[test]
fn outcomes_of_adding_and_removing() {
    let r = DnsRule::new("api.local".into(), addr(1), false);
    assert_eq!(added_outcome(r.clone(), false), (IpcResponse::Success, DnsEvent::RuleAdded(r.clone())));
    assert_eq!(added_outcome(r.clone(), true), (IpcResponse::Success, DnsEvent::EphemeralAdded(r.clone())));
    assert_eq!(
        removal_outcome("api.local", Some(r.clone()), false),
        (IpcResponse::Success, Some(DnsEvent::RuleRemoved(r.clone())))
    );
    assert_eq!(
        removal_outcome("x.local", None, true),
        (IpcResponse::Error("No ephemeral rule found for 'x.local'".into()), None)
    );
}

#[test]
fn handle_stores_and_announces_the_lower_cased_rule() {
    let (s, _) = state();
    let mut rx = s.events.subscribe();
    assert_eq!(s.handle(add("API.Local", 3000)), IpcResponse::Success);
    let expected = DnsRule::new("api.local".into(), addr(3000), false);
    assert_eq!(s.store.resolve("api.local"), Some(expected.clone()));
    assert!(s.store.resolve("API.Local").is_none());
    assert_eq!(rx.try_recv().unwrap(), DnsEvent::RuleAdded(expected));
    assert!(s.handle(add("*.local", 1)) != IpcResponse::Success);
    assert!(rx.try_recv().is_err());
    assert_eq!(s.store.len(), 1);
}
