//! `sidedns run`: route a domain with an ephemeral rule to a command's
//! address for as long as the command runs, and remove the rule when it
//! ends. With a port given, the rule is in place before the command starts;
//! without one, the command starts first and its address is found from its
//! listeners. The session decides; the caller performs each action and
//! reports what came of it.
use vstd::prelude::*;

use crate::cli::RunArgs;
use crate::ipc::{IpcRequest, IpcResponse};
use crate::net::{ip_text, IpAddress, SocketTarget};
use crate::text::{decimal, push_char, push_decimal};

verus! {

/// Where a session stands.
#[derive(Clone, Copy, Debug, PartialEq, Eq)]
pub enum RunState {
    /// Nothing done yet.
    Start,
    /// A port was given: the ephemeral rule for this target was asked for,
    /// before the command starts.
    Announcing(SocketTarget),
    /// The command is being started.
    Launching,
    /// The command runs; its given port is awaited.
    WaitingForPort(SocketTarget),
    /// The command runs; its listeners are looked for.
    Detecting,
    /// Several listeners were found; the user picks one.
    Choosing,
    /// The ephemeral rule for this target was asked for.
    Registering(SocketTarget),
    /// The rule for this target is active while the command runs.
    Running(SocketTarget),
    /// The rule is being removed; the session then ends with this code.
    Unregistering(i32),
    /// The session is over.
    Done,
}

/// What the caller reports.
pub enum RunEvent {
    /// The session begins.
    Begin,
    /// The command was started; its process id, when known.
    Launched(Option<u32>),
    /// The command could not be started.
    LaunchFailed,
    /// Whether the awaited port opened in time.
    PortOpened(bool),
    /// The TCP listeners of the command and its descendants.
    ListenersFound(Vec<SocketTarget>),
    /// The listener the user picked.
    Chosen(SocketTarget),
    /// The daemon's answer to the request for the ephemeral rule.
    Registered(IpcResponse),
    /// Ctrl-C was pressed.
    Interrupted,
    /// The daemon announced that it stops.
    DaemonStopped,
    /// The command ended, with its exit code when it has one.
    ChildExited(Option<i32>),
    /// Waiting for the command failed.
    ChildFailed,
    /// The request to remove the ephemeral rule was answered (whatever the
    /// answer).
    Unregistered,
}

/// What the caller does next.
pub enum RunAction {
    /// Start `program` with `args`.
    Launch { program: String, args: Vec<String> },
    /// Wait up to `timeout` seconds for `target` to accept connections.
    WaitForPort { target: SocketTarget, timeout: u32 },
    /// Wait `wait` seconds, then look for the TCP listeners of process `pid`
    /// and its descendants.
    Detect { pid: u32, wait: u32 },
    /// Ask the user to pick one of these listeners.
    Choose(Vec<SocketTarget>),
    /// Send this request to the daemon.
    Send(IpcRequest),
    /// Wait for the command to end, for Ctrl-C, or for the daemon to stop.
    Watch,
    /// Kill the command, then send this request to the daemon.
    KillThenSend(IpcRequest),
    /// Kill the command, then leave the process with this code.
    KillThenExit(i32),
    /// Leave the process with this exit code.
    Exit(i32),
    /// Return normally.
    Finish,
    /// The report does not fit where the session stands: nothing to do.
    Ignore,
}

/// A `sidedns run` session.
pub struct RunSession {
    pub domain: String,
    /// The address awaited when a port is given.
    pub ip: IpAddress,
    pub port: Option<u16>,
    pub https: bool,
    pub detect_timeout: u32,
    pub command: Vec<String>,
    pub state: RunState,
}

/// `r` asks for the ephemeral rule routing `domain` to `target`.
pub open spec fn is_add_ephemeral(
    r: IpcRequest,
    domain: Seq<char>,
    target: SocketTarget,
    https: bool,
) -> bool {
    r matches IpcRequest::AddEphemeral { domain: d, target: t, https: h } && d@ == domain && t
        == target && h == https
}

/// `r` asks to remove the ephemeral rule for `domain`.
pub open spec fn is_remove_ephemeral(r: IpcRequest, domain: Seq<char>) -> bool {
    r matches IpcRequest::RemoveEphemeral { domain: d } && d@ == domain
}

/// `a` sends the request for the ephemeral rule to `target`.
pub open spec fn sends_add(a: RunAction, s: RunSession, target: SocketTarget) -> bool {
    a matches RunAction::Send(r) && is_add_ephemeral(r, s.domain@, target, s.https)
}

/// The texts of strings.
pub open spec fn string_texts(v: Seq<String>) -> Seq<Seq<char>> {
    v.map_values(|s: String| s@)
}

/// `a` starts the session's command with its arguments.
pub open spec fn launches(a: RunAction, s: RunSession) -> bool {
    a matches RunAction::Launch { program, args } && program@ == s.command@[0]@ && string_texts(
        args@,
    ) == string_texts(s.command@.skip(1))
}

/// One step of a session: where it goes from `s` on event `e`, and what
/// the caller does. With a port given, the ephemeral rule is asked for
/// first and the command starts only once the daemon has accepted it;
/// without one, the command starts first, since its address is found from
/// its listeners.
pub open spec fn run_step(s: RunSession, e: RunEvent, next: RunState, a: RunAction) -> bool {
    match (s.state, e) {
        (RunState::Start, RunEvent::Begin) => if s.command@.len() == 0 {
            a == RunAction::Exit(1) && next == RunState::Done
        } else {
            match s.port {
                Some(p) => {
                    let t = SocketTarget { ip: s.ip, port: p };
                    sends_add(a, s, t) && next == RunState::Announcing(t)
                },
                None => launches(a, s) && next == RunState::Launching,
            }
        },
        (RunState::Announcing(t), RunEvent::Registered(resp)) => if resp is Error
            || s.command@.len() == 0 {
            a == RunAction::Exit(1) && next == RunState::Done
        } else {
            launches(a, s) && next == RunState::Launching
        },
        (RunState::Launching, RunEvent::LaunchFailed) => match s.port {
            Some(_) => {
                &&& a matches RunAction::Send(r) && is_remove_ephemeral(r, s.domain@)
                &&& next == RunState::Unregistering(1)
            },
            None => a == RunAction::Exit(1) && next == RunState::Done,
        },
        (RunState::Launching, RunEvent::Launched(pid)) => match s.port {
            Some(p) => {
                let t = SocketTarget { ip: s.ip, port: p };
                &&& a == RunAction::WaitForPort { target: t, timeout: s.detect_timeout }
                &&& next == RunState::WaitingForPort(t)
            },
            None => match pid {
                None => a == RunAction::Exit(1) && next == RunState::Done,
                Some(id) => a == RunAction::Detect { pid: id, wait: s.detect_timeout } && next
                    == RunState::Detecting,
            },
        },
        (RunState::WaitingForPort(t), RunEvent::PortOpened(opened)) => if opened {
            a == RunAction::Watch && next == RunState::Running(t)
        } else {
            &&& a matches RunAction::KillThenSend(r) && is_remove_ephemeral(r, s.domain@)
            &&& next == RunState::Unregistering(1)
        },
        (RunState::Detecting, RunEvent::ListenersFound(v)) => if v@.len() == 0 {
            a == RunAction::Exit(1) && next == RunState::Done
        } else if v@.len() == 1 {
            sends_add(a, s, v@[0]) && next == RunState::Registering(v@[0])
        } else {
            a matches RunAction::Choose(c) && c@ == v@ && next == RunState::Choosing
        },
        (RunState::Choosing, RunEvent::Chosen(t)) => sends_add(a, s, t) && next
            == RunState::Registering(t),
        (RunState::Registering(t), RunEvent::Registered(resp)) => if resp is Error {
            a == RunAction::Exit(1) && next == RunState::Done
        } else {
            a == RunAction::Watch && next == RunState::Running(t)
        },
        (RunState::Running(_), RunEvent::Interrupted) => {
            &&& a matches RunAction::KillThenSend(r) && is_remove_ephemeral(r, s.domain@)
            &&& next == RunState::Unregistering(0)
        },
        (RunState::Running(_), RunEvent::DaemonStopped) => a == RunAction::KillThenExit(0) && next
            == RunState::Done,
        (RunState::Running(_), RunEvent::ChildExited(code)) => {
            &&& a matches RunAction::Send(r) && is_remove_ephemeral(r, s.domain@)
            &&& next == RunState::Unregistering(
                match code {
                    Some(c) => c,
                    None => 1,
                },
            )
        },
        (RunState::Running(_), RunEvent::ChildFailed) => {
            &&& a matches RunAction::Send(r) && is_remove_ephemeral(r, s.domain@)
            &&& next == RunState::Unregistering(1)
        },
        (RunState::Unregistering(code), RunEvent::Unregistered) => {
            &&& if code != 0 {
                a == RunAction::Exit(code)
            } else {
                a == RunAction::Finish
            }
            &&& next == RunState::Done
        },
        _ => a == RunAction::Ignore && next == s.state,
    }
}

impl RunSession {
    /// A session for these arguments; without an address, the loopback
    /// address is awaited.
    pub fn new(args: RunArgs) -> (r: RunSession)
        ensures
            r.domain@ == args.domain@,
            r.ip == match args.ip {
                Some(ip) => ip,
                None => IpAddress::V4([127u8, 0u8, 0u8, 1u8]),
            },
            r.port == args.port,
            r.https == args.https,
            r.detect_timeout == args.detect_timeout,
            r.command@ == args.command@,
            r.state == RunState::Start,
    {
        let ip = match args.ip {
            Some(ip) => ip,
            None => IpAddress::V4([127, 0, 0, 1]),
        };
        RunSession {
            domain: args.domain,
            ip,
            port: args.port,
            https: args.https,
            detect_timeout: args.detect_timeout,
            command: args.command,
            state: RunState::Start,
        }
    }

    fn add_request(&self, target: SocketTarget) -> (r: IpcRequest)
        ensures
            is_add_ephemeral(r, self.domain@, target, self.https),
    {
        IpcRequest::AddEphemeral { domain: self.domain.clone(), target, https: self.https }
    }

    fn launch_action(&self) -> (a: RunAction)
        requires
            self.command@.len() > 0,
        ensures
            launches(a, *self),
    {
        let program = self.command[0].clone();
        let mut args: Vec<String> = Vec::new();
        let mut i: usize = 1;
        while i < self.command.len()
            invariant
                1 <= i <= self.command@.len(),
                string_texts(args@) == string_texts(self.command@.subrange(1, i as int)),
            decreases self.command@.len() - i,
        {
            args.push(self.command[i].clone());
            assert(string_texts(self.command@.subrange(1, i + 1)) =~= string_texts(
                self.command@.subrange(1, i as int),
            ).push(self.command@[i as int]@));
            assert(string_texts(args@) =~= string_texts(self.command@.subrange(1, i as int)).push(
                self.command@[i as int]@,
            ));
            i = i + 1;
        }
        assert(self.command@.subrange(1, self.command@.len() as int) =~= self.command@.skip(1));
        RunAction::Launch { program, args }
    }

    fn remove_request(&self) -> (r: IpcRequest)
        ensures
            is_remove_ephemeral(r, self.domain@),
    {
        IpcRequest::RemoveEphemeral { domain: self.domain.clone() }
    }

    /// Takes one step on `event`; the settings of the session stay as they
    /// are.
    pub fn step(&mut self, event: RunEvent) -> (a: RunAction)
        ensures
            run_step(*old(self), event, final(self).state, a),
            final(self).domain == old(self).domain,
            final(self).ip == old(self).ip,
            final(self).port == old(self).port,
            final(self).https == old(self).https,
            final(self).detect_timeout == old(self).detect_timeout,
            final(self).command == old(self).command,
    {
        let state = self.state;
        match (state, event) {
            (RunState::Start, RunEvent::Begin) => {
                if self.command.len() == 0 {
                    self.state = RunState::Done;
                    RunAction::Exit(1)
                } else {
                    match self.port {
                        Some(p) => {
                            let t = SocketTarget { ip: self.ip, port: p };
                            let r = self.add_request(t);
                            self.state = RunState::Announcing(t);
                            RunAction::Send(r)
                        },
                        None => {
                            let a = self.launch_action();
                            self.state = RunState::Launching;
                            a
                        },
                    }
                }
            },
            (RunState::Announcing(t), RunEvent::Registered(resp)) => {
                let refused = match resp {
                    IpcResponse::Error(_) => true,
                    _ => false,
                };
                if refused || self.command.len() == 0 {
                    self.state = RunState::Done;
                    RunAction::Exit(1)
                } else {
                    let a = self.launch_action();
                    self.state = RunState::Launching;
                    a
                }
            },
            (RunState::Launching, RunEvent::LaunchFailed) => match self.port {
                Some(_) => {
                    let r = self.remove_request();
                    self.state = RunState::Unregistering(1);
                    RunAction::Send(r)
                },
                None => {
                    self.state = RunState::Done;
                    RunAction::Exit(1)
                },
            },
            (RunState::Launching, RunEvent::Launched(pid)) => match self.port {
                Some(p) => {
                    let t = SocketTarget { ip: self.ip, port: p };
                    self.state = RunState::WaitingForPort(t);
                    RunAction::WaitForPort { target: t, timeout: self.detect_timeout }
                },
                None => match pid {
                    None => {
                        self.state = RunState::Done;
                        RunAction::Exit(1)
                    },
                    Some(id) => {
                        self.state = RunState::Detecting;
                        RunAction::Detect { pid: id, wait: self.detect_timeout }
                    },
                },
            },
            (RunState::WaitingForPort(t), RunEvent::PortOpened(opened)) => {
                if opened {
                    self.state = RunState::Running(t);
                    RunAction::Watch
                } else {
                    let r = self.remove_request();
                    self.state = RunState::Unregistering(1);
                    RunAction::KillThenSend(r)
                }
            },
            (RunState::Detecting, RunEvent::ListenersFound(v)) => {
                if v.len() == 0 {
                    self.state = RunState::Done;
                    RunAction::Exit(1)
                } else if v.len() == 1 {
                    let t = v[0];
                    let r = self.add_request(t);
                    self.state = RunState::Registering(t);
                    RunAction::Send(r)
                } else {
                    self.state = RunState::Choosing;
                    RunAction::Choose(v)
                }
            },
            (RunState::Choosing, RunEvent::Chosen(t)) => {
                let r = self.add_request(t);
                self.state = RunState::Registering(t);
                RunAction::Send(r)
            },
            (RunState::Registering(t), RunEvent::Registered(resp)) => {
                if let IpcResponse::Error(_) = resp {
                    self.state = RunState::Done;
                    RunAction::Exit(1)
                } else {
                    self.state = RunState::Running(t);
                    RunAction::Watch
                }
            },
            (RunState::Running(_), RunEvent::Interrupted) => {
                let r = self.remove_request();
                self.state = RunState::Unregistering(0);
                RunAction::KillThenSend(r)
            },
            (RunState::Running(_), RunEvent::DaemonStopped) => {
                self.state = RunState::Done;
                RunAction::KillThenExit(0)
            },
            (RunState::Running(_), RunEvent::ChildExited(code)) => {
                let r = self.remove_request();
                let c = match code {
                    Some(c) => c,
                    None => 1,
                };
                self.state = RunState::Unregistering(c);
                RunAction::Send(r)
            },
            (RunState::Running(_), RunEvent::ChildFailed) => {
                let r = self.remove_request();
                self.state = RunState::Unregistering(1);
                RunAction::Send(r)
            },
            (RunState::Unregistering(code), RunEvent::Unregistered) => {
                self.state = RunState::Done;
                if code != 0 {
                    RunAction::Exit(code)
                } else {
                    RunAction::Finish
                }
            },
            _ => RunAction::Ignore,
        }
    }
}

/// The line shown once the rule is active:
/// `domain → http://a.b.c.d:port (proxied at http[s]://domain)`.
pub open spec fn ready_text(domain: Seq<char>, target: SocketTarget, https: bool) -> Seq<char> {
    domain + " \u{2192} http://"@ + ip_text(target.ip) + seq![':'] + decimal(target.port as nat)
        + " (proxied at "@ + (if https {
        "https"@
    } else {
        "http"@
    }) + "://"@ + domain + seq![')']
}

impl RunSession {
    /// The line shown once the rule for `target` is active.
    pub fn ready_message(&self, target: SocketTarget) -> (r: String)
        ensures
            r@ == ready_text(self.domain@, target, self.https),
    {
        let mut s = String::new();
        s.append(self.domain.as_str());
        s.append(" \u{2192} http://");
        let ip = target.ip.to_text();
        s.append(ip.as_str());
        push_char(&mut s, ':');
        push_decimal(&mut s, target.port as u64);
        s.append(" (proxied at ");
        if self.https {
            s.append("https");
        } else {
            s.append("http");
        }
        s.append("://");
        s.append(self.domain.as_str());
        push_char(&mut s, ')');
        s
    }
}

} // verus!
