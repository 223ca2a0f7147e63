use sidedns_core::cli::{is_clearly_local_domain, validate_domain_resolve, AddArgs};
use sidedns_core::commands::{
    added_message, event_message, install_allowed, install_needed, removed_message,
    resolved_message, rules_table, start_decision, status_lines, stop_decision,
    unresolved_message, StartDecision, StopDecision,
};
use sidedns_core::{DnsEvent, DnsRule, IpAddress, SocketTarget};

fn rule(domain: &str, ip: IpAddress, port: u16, https: bool) -> DnsRule {
    DnsRule::new(domain.to_string(), SocketTarget::new(ip, port), https)
}

/// The table as the formatting macros lay it out.
fn expected_table(rows: &[(&str, &str, u16, bool)]) -> Vec<String> {
    let longest = rows.iter().map(|r| r.0.len()).max().unwrap_or(0).max(6);
    let (ip_w, port_w, secure_w) = (23, 5, 6);
    let mut out = vec![
        format!("╔═{:═^longest$}═╦═{:═^ip_w$}═╦═{:═^port_w$}═╦═{:═^secure_w$}═╗", "", "", "", ""),
        format!("║ {:<longest$} ║ {:<ip_w$} ║ {:<port_w$} ║ {:<secure_w$} ║", "DOMAIN", "IP", "PORT", "SECURE"),
        format!("╠═{:═^longest$}═╬═{:═^ip_w$}═╬═{:═^port_w$}═╬═{:═^secure_w$}═╣", "", "", "", ""),
    ];
    for r in rows {
        out.push(format!(
            "║ {:<longest$} ║ {:<ip_w$} ║ {:<port_w$} ║ {:<secure_w$} ║",
            r.0,
            r.1,
            r.2,
            if r.3 { "yes" } else { "no" }
        ));
    }
    out.push(format!("╚═{:═^longest$}═╩═{:═^ip_w$}═╩═{:═^port_w$}═╩═{:═^secure_w$}═╝", "", "", "", ""));
    out
}

#[test]
fn table_for_no_rules() {
    assert_eq!(rules_table(&vec![]), vec!["no rules configured".to_string()]);
}

#[test]
fn table_matches_layout() {
    let rules = vec![
        rule("api.local", IpAddress::V4([127, 0, 0, 1]), 3000, false),
        rule("a-much-longer-domain.dev.local", IpAddress::V6([0xfe80, 0, 0, 0, 0, 0, 0, 1]), 443, true),
    ];
    assert_eq!(
        rules_table(&rules),
        expected_table(&[
            ("api.local", "127.0.0.1", 3000, false),
            ("a-much-longer-domain.dev.local", "fe80::1", 443, true),
        ])
    );
}

#[test]
fn table_keeps_minimum_domain_width() {
    let rules = vec![rule("a.io", IpAddress::V4([10, 0, 0, 1]), 8, true)];
    assert_eq!(rules_table(&rules), expected_table(&[("a.io", "10.0.0.1", 8, true)]));
}

#[test]
fn messages() {
    let args = AddArgs {
        domain: "api.local".into(),
        ip: IpAddress::V4([127, 0, 0, 1]),
        port: 3000,
        https: true,
    };
    assert_eq!(added_message(&args), "Added: https://api.local \u{2192} 127.0.0.1:3000");
    assert_eq!(removed_message("api.local"), "Dns rule removed for: api.local");
    assert_eq!(
        resolved_message(&rule("*.local", IpAddress::V4([127, 0, 0, 1]), 80, false)),
        "Resolved: http://*.local \u{2192} 127.0.0.1:80"
    );
    assert_eq!(unresolved_message("ghost.local"), "No DNS rule for 'ghost.local'");
    let (a, b) = status_lines(true, 12);
    assert_eq!(a, "Daemon:  running");
    assert_eq!(b, "Rules:   12");
}

#[test]
fn watch_lines() {
    let r = rule("api.local", IpAddress::V4([127, 0, 0, 1]), 3000, false);
    assert_eq!(
        event_message(&DnsEvent::RuleAdded(r.clone())),
        "Rule Added: http://api.local \u{2192} 127.0.0.1:3000"
    );
    assert_eq!(
        event_message(&DnsEvent::EphemeralRemoved(r)),
        "Ephemeral Rule Removed: http://api.local \u{2192} 127.0.0.1:3000"
    );
    assert_eq!(event_message(&DnsEvent::DaemonStopped), "Daemon Stopped");
}

#[test]
fn daemon_decisions() {
    assert_eq!(start_decision(true, true), StartDecision::AlreadyRunning);
    assert_eq!(start_decision(false, true), StartDecision::Restart);
    assert_eq!(start_decision(false, false), StartDecision::Start);
    assert_eq!(stop_decision(false, false, true, Some(3)), StopDecision::NotRunning);
    assert_eq!(stop_decision(true, true, true, Some(3)), StopDecision::AskDaemon);
    assert_eq!(stop_decision(false, true, true, Some(3)), StopDecision::StopService);
    assert_eq!(stop_decision(false, true, false, Some(3)), StopDecision::KillManually(3));
    assert_eq!(stop_decision(false, true, false, None), StopDecision::Nothing);
}

#[test]
fn cert_install_decisions() {
    assert!(install_allowed(true, true));
    assert!(install_allowed(true, false));
    assert!(install_allowed(false, false));
    assert!(!install_allowed(false, true));
    assert!(install_needed(false, false));
    assert!(install_needed(true, true));
    assert!(!install_needed(true, false));
}

#[test]
fn local_domains_need_no_confirmation() {
    for d in ["api.local", "*.myapp.local", "svc.test", "db.internal", "localhost", "app.localhost", "www.example", "local"] {
        assert!(is_clearly_local_domain(d), "{d}");
    }
}

#[test]
fn public_looking_domains_need_confirmation() {
    for d in ["api.stripe.com", "example.com", "mylocal", "api.notlocal", "local.com", "test.io", "internal.net"] {
        assert!(!is_clearly_local_domain(d), "{d}");
    }
}

#[test]
fn resolve_argument_refuses_wildcards() {
    assert_eq!(validate_domain_resolve("API.local"), Ok("api.local".to_string()));
    assert_eq!(
        validate_domain_resolve("*.App.local"),
        Err("Wildcard domains are not allowed, please provide an explicit domain, Ex: example.app.local".to_string())
    );
    assert_eq!(validate_domain_resolve("bad_domain"), Err("Invalid domain name".to_string()));
}
