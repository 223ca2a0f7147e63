//! What the command-line tool decides and prints around its requests to
//! the daemon.
use vstd::prelude::*;

use crate::cli::AddArgs;
use crate::ipc::DnsEvent;
use crate::net::{ip_text, IpAddress};
use crate::rule::{rule_text, DnsRule, DnsRuleView};
use crate::text::{decimal, push_char, push_decimal};

verus! {

/// What `daemon start` does, given whether the daemon answers on its socket
/// and whether a daemon process is known to run.
#[derive(Clone, Copy, Debug, PartialEq, Eq, Structural)]
pub enum StartDecision {
    /// It answers: nothing to do.
    AlreadyRunning,
    /// A process runs but does not answer: stop it, then start anew.
    Restart,
    /// Start it.
    Start,
}

pub fn start_decision(ipc_running: bool, daemon_running: bool) -> (r: StartDecision)
    ensures
        r == if ipc_running {
            StartDecision::AlreadyRunning
        } else if daemon_running {
            StartDecision::Restart
        } else {
            StartDecision::Start
        },
{
    if ipc_running {
        StartDecision::AlreadyRunning
    } else if daemon_running {
        StartDecision::Restart
    } else {
        StartDecision::Start
    }
}

/// What `daemon stop` does.
#[derive(Clone, Copy, Debug, PartialEq, Eq, Structural)]
pub enum StopDecision {
    /// Nothing runs.
    NotRunning,
    /// Ask the daemon to stop through its socket, then wait for it to go.
    AskDaemon,
    /// Stop the installed system service.
    StopService,
    /// A process runs that cannot be stopped from here: tell the user its id.
    KillManually(u32),
    /// A process was said to run but none was found: nothing to do.
    Nothing,
}

pub fn stop_decision(
    ipc_running: bool,
    daemon_running: bool,
    service_installed: bool,
    running_pid: Option<u32>,
) -> (r: StopDecision)
    ensures
        r == if !(ipc_running || daemon_running) {
            StopDecision::NotRunning
        } else if ipc_running {
            StopDecision::AskDaemon
        } else if service_installed {
            StopDecision::StopService
        } else {
            match running_pid {
                Some(pid) => StopDecision::KillManually(pid),
                None => StopDecision::Nothing,
            }
        },
{
    if !(ipc_running || daemon_running) {
        StopDecision::NotRunning
    } else if ipc_running {
        StopDecision::AskDaemon
    } else if service_installed {
        StopDecision::StopService
    } else {
        match running_pid {
            Some(pid) => StopDecision::KillManually(pid),
            None => StopDecision::Nothing,
        }
    }
}

/// `cert install` goes on without root; only `--trust`, which trusts the CA
/// in the system's stores, needs the superuser.
pub fn install_allowed(is_superuser: bool, trust: bool) -> (r: bool)
    ensures
        r == (!trust || is_superuser),
{
    !trust || is_superuser
}

/// `cert install` makes a new CA unless one is installed and `--force` was
/// not given.
pub fn install_needed(installed: bool, force: bool) -> (r: bool)
    ensures
        r == (!installed || force),
{
    !installed || force
}

/// `http` or `https`.
pub open spec fn scheme(https: bool) -> Seq<char> {
    if https {
        "https"@
    } else {
        "http"@
    }
}

fn push_scheme(s: &mut String, https: bool)
    ensures
        final(s)@ == old(s)@ + scheme(https),
{
    if https {
        s.append("https");
    } else {
        s.append("http");
    }
}

/// `Added: http[s]://domain → ip:port`.
pub open spec fn added_text(domain: Seq<char>, ip: IpAddress, port: u16, https: bool) -> Seq<
    char,
> {
    "Added: "@ + scheme(https) + "://"@ + domain + " \u{2192} "@ + ip_text(ip) + seq![':']
        + decimal(port as nat)
}

pub fn added_message(args: &AddArgs) -> (r: String)
    ensures
        r@ == added_text(args.domain@, args.ip, args.port, args.https),
{
    let mut s = String::from_str("Added: ");
    push_scheme(&mut s, args.https);
    s.append("://");
    s.append(args.domain.as_str());
    s.append(" \u{2192} ");
    let ip = args.ip.to_text();
    s.append(ip.as_str());
    push_char(&mut s, ':');
    push_decimal(&mut s, args.port as u64);
    assert(s@ =~= added_text(args.domain@, args.ip, args.port, args.https));
    s
}

/// `Dns rule removed for: domain`.
pub fn removed_message(domain: &str) -> (r: String)
    ensures
        r@ == "Dns rule removed for: "@ + domain@,
{
    let mut s = String::from_str("Dns rule removed for: ");
    s.append(domain);
    s
}

/// `Resolved: http[s]://domain → ip:port`.
pub open spec fn resolved_text(rule_domain: Seq<char>, ip: IpAddress, port: u16, https: bool) -> Seq<
    char,
> {
    "Resolved: "@ + scheme(https) + "://"@ + rule_domain + " \u{2192} "@ + ip_text(ip) + seq![':']
        + decimal(port as nat)
}

pub fn resolved_message(rule: &DnsRule) -> (r: String)
    ensures
        r@ == resolved_text(rule.domain@, rule.target.ip, rule.target.port, rule.https),
{
    let mut s = String::from_str("Resolved: ");
    push_scheme(&mut s, rule.https);
    s.append("://");
    s.append(rule.domain.as_str());
    s.append(" \u{2192} ");
    let ip = rule.target.ip.to_text();
    s.append(ip.as_str());
    push_char(&mut s, ':');
    push_decimal(&mut s, rule.target.port as u64);
    assert(s@ =~= resolved_text(rule.domain@, rule.target.ip, rule.target.port, rule.https));
    s
}

/// `No DNS rule for 'domain'`.
pub fn unresolved_message(domain: &str) -> (r: String)
    ensures
        r@ == "No DNS rule for '"@ + domain@ + "'"@,
{
    let mut s = String::from_str("No DNS rule for '");
    s.append(domain);
    s.append("'");
    s
}

/// The line `watch` prints for an event.
pub open spec fn event_text(e: DnsEvent) -> Seq<char> {
    match e {
        DnsEvent::RuleAdded(r) => "Rule Added: "@ + rule_text(r@),
        DnsEvent::RuleRemoved(r) => "Rule Removed: "@ + rule_text(r@),
        DnsEvent::EphemeralAdded(r) => "Ephemeral Rule Added: "@ + rule_text(r@),
        DnsEvent::EphemeralRemoved(r) => "Ephemeral Rule Removed: "@ + rule_text(r@),
        DnsEvent::DaemonStopped => "Daemon Stopped"@,
    }
}

pub fn event_message(e: &DnsEvent) -> (r: String)
    ensures
        r@ == event_text(*e),
{
    match e {
        DnsEvent::RuleAdded(r) => {
            let mut s = String::from_str("Rule Added: ");
            s.append(r.to_display_string().as_str());
            s
        },
        DnsEvent::RuleRemoved(r) => {
            let mut s = String::from_str("Rule Removed: ");
            s.append(r.to_display_string().as_str());
            s
        },
        DnsEvent::EphemeralAdded(r) => {
            let mut s = String::from_str("Ephemeral Rule Added: ");
            s.append(r.to_display_string().as_str());
            s
        },
        DnsEvent::EphemeralRemoved(r) => {
            let mut s = String::from_str("Ephemeral Rule Removed: ");
            s.append(r.to_display_string().as_str());
            s
        },
        DnsEvent::DaemonStopped => String::from_str("Daemon Stopped"),
    }
}

/// The two lines of `status` for a daemon that answered.
pub fn status_lines(running: bool, rule_count: usize) -> (r: (String, String))
    ensures
        r.0@ == "Daemon:  "@ + (if running {
            "running"@
        } else {
            "stopped"@
        }),
        r.1@ == "Rules:   "@ + decimal(rule_count as nat),
{
    let mut a = String::from_str("Daemon:  ");
    if running {
        a.append("running");
    } else {
        a.append("stopped");
    }
    let mut b = String::from_str("Rules:   ");
    push_decimal(&mut b, rule_count as u64);
    (a, b)
}

} // verus!

verus! {

/// `n` copies of `c`.
pub open spec fn repeat_char(c: char, n: nat) -> Seq<char> {
    Seq::new(n, |_i: int| c)
}

/// `s` padded with spaces on the right to `w` characters (as `{:<w$}`).
pub open spec fn pad_right(s: Seq<char>, w: nat) -> Seq<char> {
    if s.len() < w {
        s + repeat_char(' ', (w - s.len()) as nat)
    } else {
        s
    }
}

/// The width of the domain column: the longest domain, in bytes (as
/// `str::len` gives them), and at least 6.
pub open spec fn domain_width(rules: Seq<DnsRuleView>) -> nat
    decreases rules.len(),
{
    if rules.len() == 0 {
        6
    } else {
        let rest = domain_width(rules.drop_last());
        let here = (vstd::utf8::encode_utf8(rules.last().domain).len() as usize) as nat;
        if here > rest {
            here
        } else {
            rest
        }
    }
}

/// A border line of the table: `l═…═m═…═m═…═m═…═r`, with the columns
/// `w`, 23, 5 and 6 wide.
pub open spec fn border(l: char, m: char, r: char, w: nat) -> Seq<char> {
    seq![l, '\u{2550}'] + repeat_char('\u{2550}', w) + seq!['\u{2550}', m, '\u{2550}']
        + repeat_char('\u{2550}', 23) + seq!['\u{2550}', m, '\u{2550}'] + repeat_char('\u{2550}', 5)
        + seq!['\u{2550}', m, '\u{2550}'] + repeat_char('\u{2550}', 6) + seq!['\u{2550}', r]
}

/// A row of the table.
pub open spec fn row(a: Seq<char>, b: Seq<char>, c: Seq<char>, d: Seq<char>, w: nat) -> Seq<char> {
    "\u{2551} "@ + pad_right(a, w) + " \u{2551} "@ + pad_right(b, 23) + " \u{2551} "@ + pad_right(c, 5)
        + " \u{2551} "@ + pad_right(d, 6) + " \u{2551}"@
}

/// The row of a rule.
pub open spec fn rule_row(r: DnsRuleView, w: nat) -> Seq<char> {
    row(
        r.domain,
        ip_text(r.target.ip),
        decimal(r.target.port as nat),
        if r.https {
            "yes"@
        } else {
            "no"@
        },
        w,
    )
}

/// The lines `list` prints for these rules: a note when there are none,
/// else a table with a header and one row per rule.
pub open spec fn table_lines(rules: Seq<DnsRuleView>) -> Seq<Seq<char>> {
    if rules.len() == 0 {
        seq!["no rules configured"@]
    } else {
        let w = domain_width(rules);
        seq![
            border('\u{2554}', '\u{2566}', '\u{2557}', w),
            row("DOMAIN"@, "IP"@, "PORT"@, "SECURE"@, w),
            border('\u{2560}', '\u{256c}', '\u{2563}', w),
        ] + rules.map_values(|r: DnsRuleView| rule_row(r, w)) + seq![
            border('\u{255a}', '\u{2569}', '\u{255d}', w),
        ]
    }
}

fn push_repeat(s: &mut String, c: char, n: usize)
    ensures
        final(s)@ == old(s)@ + repeat_char(c, n as nat),
{
    let mut i: usize = 0;
    while i < n
        invariant
            0 <= i <= n,
            s@ == old(s)@ + repeat_char(c, i as nat),
        decreases n - i,
    {
        push_char(s, c);
        assert(repeat_char(c, (i + 1) as nat) =~= repeat_char(c, i as nat).push(c));
        i = i + 1;
    }
}

fn push_padded(s: &mut String, text: &str, w: usize)
    ensures
        final(s)@ == old(s)@ + pad_right(text@, w as nat),
{
    let n = crate::text::chars_of(text).len();
    s.append(text);
    if n < w {
        push_repeat(s, ' ', w - n);
    }
    assert(s@ =~= old(s)@ + pad_right(text@, w as nat));
}

fn border_line(l: char, m: char, r: char, w: usize) -> (out: String)
    ensures
        out@ == border(l, m, r, w as nat),
{
    let mut s = String::new();
    push_char(&mut s, l);
    push_char(&mut s, '\u{2550}');
    push_repeat(&mut s, '\u{2550}', w);
    push_char(&mut s, '\u{2550}');
    push_char(&mut s, m);
    push_char(&mut s, '\u{2550}');
    push_repeat(&mut s, '\u{2550}', 23);
    push_char(&mut s, '\u{2550}');
    push_char(&mut s, m);
    push_char(&mut s, '\u{2550}');
    push_repeat(&mut s, '\u{2550}', 5);
    push_char(&mut s, '\u{2550}');
    push_char(&mut s, m);
    push_char(&mut s, '\u{2550}');
    push_repeat(&mut s, '\u{2550}', 6);
    push_char(&mut s, '\u{2550}');
    push_char(&mut s, r);
    assert(s@ =~= border(l, m, r, w as nat));
    s
}

fn row_line(a: &str, b: &str, c: &str, d: &str, w: usize) -> (out: String)
    ensures
        out@ == row(a@, b@, c@, d@, w as nat),
{
    let mut s = String::from_str("\u{2551} ");
    push_padded(&mut s, a, w);
    s.append(" \u{2551} ");
    push_padded(&mut s, b, 23);
    s.append(" \u{2551} ");
    push_padded(&mut s, c, 5);
    s.append(" \u{2551} ");
    push_padded(&mut s, d, 6);
    s.append(" \u{2551}");
    assert(s@ =~= row(a@, b@, c@, d@, w as nat));
    s
}

/// The lines `list` prints.
pub fn rules_table(rules: &Vec<DnsRule>) -> (r: Vec<String>)
    ensures
        crate::platform::texts(r@) == table_lines(crate::store::views(rules@)),
{
    let ghost vs = crate::store::views(rules@);
    if rules.len() == 0 {
        let mut r: Vec<String> = Vec::new();
        crate::platform::push_text(&mut r, "no rules configured");
        return r;
    }
    let mut w: usize = 6;
    let mut i: usize = 0;
    assert(vs.take(0) =~= Seq::<DnsRuleView>::empty());
    while i < rules.len()
        invariant
            0 <= i <= rules@.len(),
            vs == crate::store::views(rules@),
            w == domain_width(vs.take(i as int)),
        decreases rules@.len() - i,
    {
        let n = rules[i].domain.as_str().len();
        assert(vs.take(i + 1).drop_last() =~= vs.take(i as int));
        assert(vs.take(i + 1).last() == rules@[i as int]@);
        if n > w {
            w = n;
        }
        i = i + 1;
    }
    assert(vs.take(rules@.len() as int) =~= vs);
    let mut r: Vec<String> = Vec::new();
    r.push(border_line('\u{2554}', '\u{2566}', '\u{2557}', w));
    r.push(row_line("DOMAIN", "IP", "PORT", "SECURE", w));
    r.push(border_line('\u{2560}', '\u{256c}', '\u{2563}', w));
    let ghost head = crate::platform::texts(r@);
    assert(head =~= seq![
        border('\u{2554}', '\u{2566}', '\u{2557}', w as nat),
        row("DOMAIN"@, "IP"@, "PORT"@, "SECURE"@, w as nat),
        border('\u{2560}', '\u{256c}', '\u{2563}', w as nat),
    ]);
    let mut k: usize = 0;
    while k < rules.len()
        invariant
            0 <= k <= rules@.len(),
            vs == crate::store::views(rules@),
            w == domain_width(vs),
            r@.len() == 3 + k,
            crate::platform::texts(r@) == head + vs.take(k as int).map_values(
                |x: DnsRuleView| rule_row(x, w as nat),
            ),
        decreases rules@.len() - k,
    {
        let rule = &rules[k];
        let ip = rule.target.ip.to_text();
        let mut port = String::new();
        push_decimal(&mut port, rule.target.port as u64);
        let secure = if rule.https {
            "yes"
        } else {
            "no"
        };
        let line = row_line(rule.domain.as_str(), ip.as_str(), port.as_str(), secure, w);
        assert(vs[k as int] == rule@);
        assert(line@ == rule_row(vs[k as int], w as nat));
        let ghost before = r@;
        r.push(line);
        assert(crate::platform::texts(r@) =~= crate::platform::texts(before).push(line@));
        assert(vs.take(k + 1) =~= vs.take(k as int).push(vs[k as int]));
        assert(vs.take(k + 1).map_values(|x: DnsRuleView| rule_row(x, w as nat)) =~= vs.take(
            k as int,
        ).map_values(|x: DnsRuleView| rule_row(x, w as nat)).push(rule_row(vs[k as int], w as nat)));
        k = k + 1;
    }
    let ghost before = r@;
    let last = border_line('\u{255a}', '\u{2569}', '\u{255d}', w);
    r.push(last);
    assert(crate::platform::texts(r@) =~= crate::platform::texts(before).push(last@));
    assert(vs.take(rules@.len() as int) =~= vs);
    assert(crate::platform::texts(r@) =~= table_lines(vs));
    r
}

} // verus!
