use sidedns_core::cli::{Cli, Command, DaemonAction, DaemonArgs, DaemonStartArgs, RunArgs};
use sidedns_core::run_session::{RunAction, RunEvent, RunSession, RunState};
use sidedns_core::{IpAddress, IpcRequest, IpcResponse, SocketTarget};

fn args(port: Option<u16>, command: &[&str]) -> RunArgs {
    RunArgs {
        domain: "api.local".into(),
        ip: None,
        port,
        https: true,
        detect_timeout: 5,
        command: command.iter().map(|s| s.to_string()).collect(),
    }
}

fn target(port: u16) -> SocketTarget {
    SocketTarget::new(IpAddress::V4([127, 0, 0, 1]), port)
}

fn is_add(a: &RunAction, t: SocketTarget) -> bool {
    matches!(a, RunAction::Send(IpcRequest::AddEphemeral { domain, target, https })
        if domain == "api.local" && *target == t && *https)
}

#[test]
fn empty_command_exits_with_one() {
    let mut s = RunSession::new(args(None, &[]));
    assert!(matches!(s.step(RunEvent::Begin), RunAction::Exit(1)));
    assert_eq!(s.state, RunState::Done);
}

#[test]
fn launch_splits_program_and_arguments() {
    let mut s = RunSession::new(args(None, &["fastapi", "dev", "--reload"]));
    match s.step(RunEvent::Begin) {
        RunAction::Launch { program, args } => {
            assert_eq!(program, "fastapi");
            assert_eq!(args, vec!["dev".to_string(), "--reload".to_string()]);
        },
        _ => panic!("expected a launch"),
    }
    assert_eq!(s.state, RunState::Launching);
}

#[test]
fn given_port_is_registered_before_launch_then_awaited() {
    let mut s = RunSession::new(args(Some(8000), &["server", "-v"]));
    let a = s.step(RunEvent::Begin);
    assert!(is_add(&a, target(8000)));
    assert_eq!(s.state, RunState::Announcing(target(8000)));
    match s.step(RunEvent::Registered(IpcResponse::Success)) {
        RunAction::Launch { program, args } => {
            assert_eq!(program, "server");
            assert_eq!(args, vec!["-v".to_string()]);
        },
        _ => panic!("expected a launch after the rule is in place"),
    }
    match s.step(RunEvent::Launched(Some(42))) {
        RunAction::WaitForPort { target: t, timeout } => {
            assert_eq!(t, target(8000));
            assert_eq!(timeout, 5);
        },
        _ => panic!("expected waiting for the port"),
    }
    assert!(matches!(s.step(RunEvent::PortOpened(true)), RunAction::Watch));
    assert_eq!(s.state, RunState::Running(target(8000)));
}

#[test]
fn port_that_never_opens_removes_rule_and_exits_with_one() {
    let mut s = RunSession::new(args(Some(8000), &["server"]));
    s.step(RunEvent::Begin);
    s.step(RunEvent::Registered(IpcResponse::Success));
    s.step(RunEvent::Launched(None));
    match s.step(RunEvent::PortOpened(false)) {
        RunAction::KillThenSend(IpcRequest::RemoveEphemeral { domain }) => assert_eq!(domain, "api.local"),
        _ => panic!("expected the rule to be removed"),
    }
    assert!(matches!(s.step(RunEvent::Unregistered), RunAction::Exit(1)));
}

#[test]
fn failed_launch_removes_rule_when_port_given() {
    let mut s = RunSession::new(args(Some(8000), &["server"]));
    s.step(RunEvent::Begin);
    s.step(RunEvent::Registered(IpcResponse::Success));
    match s.step(RunEvent::LaunchFailed) {
        RunAction::Send(IpcRequest::RemoveEphemeral { domain }) => assert_eq!(domain, "api.local"),
        _ => panic!("expected the rule to be removed"),
    }
    assert!(matches!(s.step(RunEvent::Unregistered), RunAction::Exit(1)));
    let mut s = RunSession::new(args(None, &["server"]));
    s.step(RunEvent::Begin);
    assert!(matches!(s.step(RunEvent::LaunchFailed), RunAction::Exit(1)));
}

#[test]
fn detection_without_pid_exits_with_one() {
    let mut s = RunSession::new(args(None, &["server"]));
    s.step(RunEvent::Begin);
    assert!(matches!(s.step(RunEvent::Launched(None)), RunAction::Exit(1)));
}

#[test]
fn detection_outcomes() {
    let start = || {
        let mut s = RunSession::new(args(None, &["server"]));
        s.step(RunEvent::Begin);
        assert!(matches!(
            s.step(RunEvent::Launched(Some(7))),
            RunAction::Detect { pid: 7, wait: 5 }
        ));
        s
    };
    let mut s = start();
    assert!(matches!(s.step(RunEvent::ListenersFound(vec![])), RunAction::Exit(1)));

    let mut s = start();
    let found = SocketTarget::new(IpAddress::V4([0, 0, 0, 0]), 5173);
    let a = s.step(RunEvent::ListenersFound(vec![found]));
    assert!(is_add(&a, found));

    let mut s = start();
    match s.step(RunEvent::ListenersFound(vec![target(1), target(2)])) {
        RunAction::Choose(v) => assert_eq!(v, vec![target(1), target(2)]),
        _ => panic!("expected a choice"),
    }
    let a = s.step(RunEvent::Chosen(target(2)));
    assert!(is_add(&a, target(2)));
}

fn running() -> RunSession {
    let mut s = RunSession::new(args(Some(3000), &["server"]));
    s.step(RunEvent::Begin);
    s.step(RunEvent::Registered(IpcResponse::Success));
    s.step(RunEvent::Launched(Some(1)));
    assert!(matches!(s.step(RunEvent::PortOpened(true)), RunAction::Watch));
    assert_eq!(s.state, RunState::Running(target(3000)));
    s
}

#[test]
fn refused_rule_exits_with_one() {
    let mut s = RunSession::new(args(Some(3000), &["server"]));
    s.step(RunEvent::Begin);
    assert!(matches!(
        s.step(RunEvent::Registered(IpcResponse::Error("nope".into()))),
        RunAction::Exit(1)
    ));
    let mut s = RunSession::new(args(None, &["server"]));
    s.step(RunEvent::Begin);
    s.step(RunEvent::Launched(Some(1)));
    s.step(RunEvent::ListenersFound(vec![target(3000)]));
    assert!(matches!(
        s.step(RunEvent::Registered(IpcResponse::Error("nope".into()))),
        RunAction::Exit(1)
    ));
}

#[test]
fn interrupt_kills_and_removes_rule_then_finishes() {
    let mut s = running();
    match s.step(RunEvent::Interrupted) {
        RunAction::KillThenSend(IpcRequest::RemoveEphemeral { domain }) => {
            assert_eq!(domain, "api.local")
        },
        _ => panic!("expected cleanup"),
    }
    assert!(matches!(s.step(RunEvent::Unregistered), RunAction::Finish));
    assert_eq!(s.state, RunState::Done);
}

#[test]
fn daemon_stop_kills_and_exits_without_cleanup() {
    let mut s = running();
    assert!(matches!(s.step(RunEvent::DaemonStopped), RunAction::KillThenExit(0)));
}

#[test]
fn child_exit_code_is_passed_on() {
    let mut s = running();
    assert!(matches!(
        s.step(RunEvent::ChildExited(Some(3))),
        RunAction::Send(IpcRequest::RemoveEphemeral { .. })
    ));
    assert!(matches!(s.step(RunEvent::Unregistered), RunAction::Exit(3)));

    let mut s = running();
    s.step(RunEvent::ChildExited(None));
    assert!(matches!(s.step(RunEvent::Unregistered), RunAction::Exit(1)));

    let mut s = running();
    s.step(RunEvent::ChildExited(Some(0)));
    assert!(matches!(s.step(RunEvent::Unregistered), RunAction::Finish));

    let mut s = running();
    s.step(RunEvent::ChildFailed);
    assert!(matches!(s.step(RunEvent::Unregistered), RunAction::Exit(1)));
}

#[test]
fn reports_out_of_place_are_ignored() {
    let mut s = RunSession::new(args(None, &["server"]));
    assert!(matches!(s.step(RunEvent::Interrupted), RunAction::Ignore));
    assert_eq!(s.state, RunState::Start);
}

#[test]
fn ready_message_text() {
    let s = RunSession::new(args(Some(8000), &["server"]));
    assert_eq!(
        s.ready_message(target(8000)),
        "api.local \u{2192} http://127.0.0.1:8000 (proxied at https://api.local)"
    );
}

#[test]
fn default_ip_is_loopback() {
    assert_eq!(RunSession::new(args(None, &["x"])).ip, IpAddress::V4([127, 0, 0, 1]));
}

#[test]
fn commands_that_need_the_daemon() {
    assert!(Command::List.needs_daemon());
    assert!(Command::Watch.needs_daemon());
    assert!(!Command::Status.needs_daemon());
    assert!(!Command::Clean.needs_daemon());
    assert!(!Command::Daemon(DaemonArgs { action: None }).needs_daemon());
}

#[test]
fn daemon_process_detection() {
    let start = |background: bool, daemon: bool| Cli {
        command: Command::Daemon(DaemonArgs {
            action: Some(DaemonAction::Start(DaemonStartArgs {
                background,
                no_background: false,
                daemon,
            })),
        }),
    };
    assert!(start(true, true).is_daemon_process(true));
    assert!(!start(true, true).is_daemon_process(false));
    assert!(!start(true, false).is_daemon_process(true));
    assert!(!start(false, true).is_daemon_process(true));
    assert!(!Cli { command: Command::Status }.is_daemon_process(true));
}
