//! Command-line argument types and the checks applied to them.
use vstd::prelude::*;

use crate::domain::is_valid_domain;
use crate::net::IpAddress;
use crate::text::{
    chars_of, concat, lowercase, replace_star_dot, replace_star_dot_exec, starts_with_star_dot,
    str_equals, tail_equals, to_lower,
};

verus! {

/// Manage the root CA certificate used for HTTPS proxying.
pub struct CertArgs {
    pub action: CertAction,
}

pub enum CertAction {
    /// Install the root CA certificate (if not already installed).
    Install(CertInstallArgs),
    /// Uninstall the root CA certificate (if installed).
    Uninstall,
    /// Trust the root CA in the selected stores (requires admin).
    Trust(CertTrustArgs),
    /// Untrust the root CA in the selected stores (requires admin).
    Untrust(CertTrustArgs),
}

pub struct CertInstallArgs {
    /// Regenerate and reinstall the root CA, replacing any existing one.
    pub force: bool,
    /// Trust the root CA in all supported stores (requires admin).
    pub trust: bool,
}

/// Which trust stores a trust or untrust command applies to.
#[derive(Clone, Copy, Debug, PartialEq, Eq, Structural)]
pub struct CertTrustArgs {
    /// All supported stores.
    pub all: bool,
    /// The system store.
    pub system: bool,
    /// The Java store.
    pub java: bool,
    /// The NSS store.
    pub nss: bool,
}

impl CertTrustArgs {
    /// The selection used when trusting from `cert install --trust` and when
    /// untrusting on `cert uninstall`: every store.
    pub fn all_stores() -> (r: CertTrustArgs)
        ensures
            r == (CertTrustArgs { all: true, system: false, java: false, nss: false }),
    {
        CertTrustArgs { all: true, system: false, java: false, nss: false }
    }

    /// Whether the store named `name` is selected.
    pub fn selects(&self, name: &str) -> (b: bool)
        ensures
            b == (self.all || (self.system && name@ == "system"@) || (self.java && name@
                == "java"@) || (self.nss && name@ == "nss"@)),
    {
        self.all || (self.system && str_equals(name, "system")) || (self.java && str_equals(
            name,
            "java",
        )) || (self.nss && str_equals(name, "nss"))
    }
}

/// Remove a routing rule.
pub struct RemoveArgs {
    pub domain: String,
}

/// Resolve a domain to its configured target.
pub struct ResolveArgs {
    pub domain: String,
}

/// Manage the background daemon.
pub struct DaemonArgs {
    pub action: Option<DaemonAction>,
}

pub enum DaemonAction {
    Start(DaemonStartArgs),
    /// Stop the running daemon.
    Stop,
}

/// Start the daemon (in the background unless told otherwise).
#[derive(Clone, Copy, Debug, PartialEq, Eq, Structural)]
pub struct DaemonStartArgs {
    /// Run the daemon in the background (detached from the terminal).
    pub background: bool,
    /// Run the daemon in the foreground (attached to the terminal).
    pub no_background: bool,
    /// Internal flag: the daemon process starting itself.
    pub daemon: bool,
}

impl DaemonStartArgs {
    /// The arguments of a plain `daemon start`.
    pub fn default_args() -> (r: DaemonStartArgs)
        ensures
            r == (DaemonStartArgs { background: true, no_background: false, daemon: false }),
    {
        DaemonStartArgs { background: true, no_background: false, daemon: false }
    }

    /// Whether the daemon is to be detached from the terminal.
    pub fn runs_in_background(&self) -> (b: bool)
        ensures
            b == (self.background && !self.no_background),
    {
        self.background && !self.no_background
    }
}

impl DaemonArgs {
    /// The action asked for; `daemon` alone means `daemon start`.
    pub fn action_or_start(self) -> (r: DaemonAction)
        ensures
            match self.action {
                Some(a) => r == a,
                None => r == DaemonAction::Start(
                    DaemonStartArgs { background: true, no_background: false, daemon: false },
                ),
            },
    {
        match self.action {
            Some(a) => a,
            None => DaemonAction::Start(DaemonStartArgs::default_args()),
        }
    }
}

/// The message for a domain argument that is not a valid domain.
pub open spec fn invalid_domain_argument() -> Seq<char> {
    "Invalid domain name"@
}

/// The message for a wildcard given where an explicit domain is needed.
pub open spec fn wildcard_not_allowed(domain: Seq<char>) -> Seq<char> {
    "Wildcard domains are not allowed, please provide an explicit domain, Ex: "@ + replace_star_dot(
        domain,
        "example."@,
    )
}

/// Checks a domain argument: a valid domain is returned lower-cased.
pub fn validate_domain(s: &str) -> (r: Result<String, String>)
    ensures
        match r {
            Ok(d) => is_valid_domain(s@) && d@ == lowercase(s@),
            Err(e) => !is_valid_domain(s@) && e@ == invalid_domain_argument(),
        },
{
    if crate::domain::validate_domain(s) {
        Ok(to_lower(s))
    } else {
        Err(String::from_str("Invalid domain name"))
    }
}

/// Whether a text starts with `*.`, as a wildcard does.
pub open spec fn starts_wildcard(s: Seq<char>) -> bool {
    s.len() >= 2 && s[0] == '*' && s[1] == '.'
}

/// Checks the domain argument of `resolve`: like `validate_domain`, but a
/// wildcard (a valid domain starting with `*.`) is refused with an example
/// of an explicit domain.
pub fn validate_domain_resolve(s: &str) -> (r: Result<String, String>)
    ensures
        r is Ok <==> (is_valid_domain(s@) && !starts_wildcard(s@)),
        match r {
            Ok(d) => d@ == lowercase(s@),
            Err(e) => if is_valid_domain(s@) {
                e@ == wildcard_not_allowed(lowercase(s@))
            } else {
                e@ == invalid_domain_argument()
            },
        },
{
    match validate_domain(s) {
        Ok(domain) => {
            if starts_with_star_dot(s) {
                let example = replace_star_dot_exec(domain.as_str(), "example.");
                Err(
                    concat(
                        "Wildcard domains are not allowed, please provide an explicit domain, Ex: ",
                        example.as_str(),
                    ),
                )
            } else {
                Ok(domain)
            }
        },
        Err(e) => Err(e),
    }
}

/// The top-level labels of names that are clearly local: a rule for such a
/// name needs no confirmation.
pub open spec fn local_labels() -> Seq<Seq<char>> {
    seq!["local"@, "test"@, "internal"@, "localhost"@, "example"@]
}

/// Whether the last label of `d` is `label`.
pub open spec fn last_label_is(d: Seq<char>, label: Seq<char>) -> bool {
    ||| d == label
    ||| (d.len() > label.len() && d.skip(d.len() - label.len()) == label && d[d.len()
        - label.len() - 1] == '.')
}

/// Whether `d` is clearly a local name: its last label is one of
/// `local_labels()`.
pub open spec fn is_clearly_local(d: Seq<char>) -> bool {
    exists|i: int| 0 <= i < local_labels().len() && #[trigger] last_label_is(d, local_labels()[i])
}

fn last_label_matches(d: &Vec<char>, label: &str) -> (b: bool)
    ensures
        b == last_label_is(d@, label@),
{
    let t = chars_of(label);
    if d.len() == t.len() {
        assert(d@.skip(0) =~= d@);
        tail_equals(d, 0, &t)
    } else if d.len() > t.len() {
        let from = d.len() - t.len();
        d[from - 1] == '.' && tail_equals(d, from, &t)
    } else {
        assert(d@ != t@);
        false
    }
}

/// Whether a rule for `domain` can be added without asking: a name whose
/// last label is `local`, `test`, `internal`, `localhost` or `example` is
/// clearly local; any other name may be a real public domain, which every
/// application on the machine would then reach locally.
pub fn is_clearly_local_domain(domain: &str) -> (b: bool)
    ensures
        b == is_clearly_local(domain@),
{
    let d = chars_of(domain);
    let r = last_label_matches(&d, "local") || last_label_matches(&d, "test") || last_label_matches(
        &d,
        "internal",
    ) || last_label_matches(&d, "localhost") || last_label_matches(&d, "example");
    proof {
        let l = local_labels();
        assert(l[0] == "local"@ && l[1] == "test"@ && l[2] == "internal"@ && l[3] == "localhost"@
            && l[4] == "example"@);
        if r {
            if last_label_is(d@, l[0]) {
            } else if last_label_is(d@, l[1]) {
            } else if last_label_is(d@, l[2]) {
            } else if last_label_is(d@, l[3]) {
            } else {
                assert(last_label_is(d@, l[4]));
            }
        } else {
            assert forall|i: int| 0 <= i < l.len() implies !last_label_is(d@, #[trigger] l[i]) by {
                if i == 0 {
                } else if i == 1 {
                } else if i == 2 {
                } else if i == 3 {
                } else {
                }
            }
        }
    }
    r
}

} // verus!

verus! {

/// Add or replace a routing rule.
pub struct AddArgs {
    /// Domain name to route (e.g. `api.local`).
    pub domain: String,
    /// Target IP address (`127.0.0.1` unless given).
    pub ip: IpAddress,
    /// Target port (80 unless given).
    pub port: u16,
    /// Enable the HTTPS proxy for this rule.
    pub https: bool,
}

/// Run a command with an ephemeral routing rule active while it runs.
pub struct RunArgs {
    /// Domain name to route (e.g. `example.local`).
    pub domain: String,
    /// Target IP address; when omitted, the loopback address, or the IPv4
    /// address of the listener found after launch.
    pub ip: Option<IpAddress>,
    /// Target port; when omitted, found after launch.
    pub port: Option<u16>,
    /// Enable the HTTPS proxy for this ephemeral rule.
    pub https: bool,
    /// Seconds to wait before looking for the command's listeners (or for
    /// its port to open).
    pub detect_timeout: u32,
    /// The command to run, followed by its arguments.
    pub command: Vec<String>,
}

/// The subcommands.
pub enum Command {
    Cert(CertArgs),
    /// List all active routing rules.
    List,
    Add(AddArgs),
    Remove(RemoveArgs),
    Resolve(ResolveArgs),
    Daemon(DaemonArgs),
    Run(RunArgs),
    /// Show the daemon's status.
    Status,
    /// Remove every system DNS rule of the daemon.
    Clean,
    /// Watch for rule changes and print them as they happen.
    Watch,
}

/// The command line.
pub struct Cli {
    pub command: Command,
}

impl Command {
    /// Whether the command talks to the daemon, which is then started first
    /// when it is not running.
    pub fn needs_daemon(&self) -> (b: bool)
        ensures
            b == (self is Add || self is Remove || self is List || self is Resolve || self is Run
                || self is Watch),
    {
        match self {
            Command::Add(_) | Command::Remove(_) | Command::List | Command::Resolve(_)
            | Command::Run(_) | Command::Watch => true,
            Command::Cert(_) | Command::Daemon(_) | Command::Status | Command::Clean => false,
        }
    }
}

impl Cli {
    /// Whether this process was spawned to be the background daemon: the
    /// command is `daemon start` with both `--background` and the internal
    /// `--daemon` flag, and the daemon's environment variable is set.
    pub fn is_daemon_process(&self, daemon_env_set: bool) -> (b: bool)
        ensures
            b == (self.command matches Command::Daemon(a) && a.action matches Some(
                DaemonAction::Start(s),
            ) && daemon_env_set && s.background && s.daemon),
    {
        match &self.command {
            Command::Daemon(a) => match &a.action {
                Some(DaemonAction::Start(s)) => daemon_env_set && s.background && s.daemon,
                _ => false,
            },
            _ => false,
        }
    }
}

} // verus!
