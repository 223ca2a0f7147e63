//! Split-DNS configuration of the operating system.
//!
//! Each configurator decides which file-system and command actions route a
//! set of domains to the daemon's DNS server, or undo that; the application
//! performs the actions. Applying is idempotent: it first removes whatever
//! an earlier run configured.
use vstd::prelude::*;

use crate::net::{dns_listen_addr, ipv4_text, IpAddress};
use crate::platform::{push_text, texts, TargetOs};
use crate::text::{concat, concat3, push_char, replace_star_dot, replace_star_dot_exec, skip_chars, starts_with_star_dot};

verus! {

/// The first line of every file that the daemon writes, and the comment of
/// every Windows rule it adds.
pub const MANAGED_MARKER: &'static str = "Managed by SideDNS — do not edit manually";

/// What identifies a file written by the daemon.
pub const MANAGED_TAG: &'static str = "Managed by SideDNS";

pub const RESOLVER_DIR: &'static str = "/etc/resolver";

pub const DROP_IN_DIR: &'static str = "/etc/systemd/resolved.conf.d";

pub const DROP_IN_PATH: &'static str = "/etc/systemd/resolved.conf.d/sidedns.conf";

/// An action on the system that a configurator asks for.
pub enum SystemAction {
    /// Create a directory and its parents if missing.
    CreateDirAll(String),
    /// Write `content` to the file at `path`, replacing it.
    WriteFile { path: String, content: String },
    /// Remove every file directly in `dir` whose text contains `marker`.
    RemoveManagedFiles { dir: String, marker: String },
    /// Remove the file at the path if it exists.
    RemoveFileIfExists(String),
    /// Run `program` with `args`; a non-zero exit fails with `failure`.
    Run { program: String, args: Vec<String>, failure: String },
    /// Run `program` with `args`, whatever its exit status.
    RunUnchecked { program: String, args: Vec<String> },
    /// Copy the file at `from` to `to`.
    CopyFile { from: String, to: String },
    /// Remove the file at the path; failing to is an error.
    RemoveFile(String),
    /// Stop with this error.
    Fail(String),
}

/// What an action holds.
pub enum ActionView {
    CreateDirAll(Seq<char>),
    WriteFile(Seq<char>, Seq<char>),
    RemoveManagedFiles(Seq<char>, Seq<char>),
    RemoveFileIfExists(Seq<char>),
    Run(Seq<char>, Seq<Seq<char>>, Seq<char>),
    RunUnchecked(Seq<char>, Seq<Seq<char>>),
    CopyFile(Seq<char>, Seq<char>),
    RemoveFile(Seq<char>),
    Fail(Seq<char>),
}

impl View for SystemAction {
    type V = ActionView;

    open spec fn view(&self) -> ActionView {
        match self {
            SystemAction::CreateDirAll(p) => ActionView::CreateDirAll(p@),
            SystemAction::WriteFile { path, content } => ActionView::WriteFile(path@, content@),
            SystemAction::RemoveManagedFiles { dir, marker } => ActionView::RemoveManagedFiles(
                dir@,
                marker@,
            ),
            SystemAction::RemoveFileIfExists(p) => ActionView::RemoveFileIfExists(p@),
            SystemAction::Run { program, args, failure } => ActionView::Run(
                program@,
                texts(args@),
                failure@,
            ),
            SystemAction::RunUnchecked { program, args } => ActionView::RunUnchecked(
                program@,
                texts(args@),
            ),
            SystemAction::CopyFile { from, to } => ActionView::CopyFile(from@, to@),
            SystemAction::RemoveFile(p) => ActionView::RemoveFile(p@),
            SystemAction::Fail(m) => ActionView::Fail(m@),
        }
    }
}

pub open spec fn plan_view(v: Seq<SystemAction>) -> Seq<ActionView> {
    v.map_values(|a: SystemAction| a@)
}

pub fn push_action(v: &mut Vec<SystemAction>, a: SystemAction)
    ensures
        plan_view(final(v)@) == plan_view(old(v)@).push(a@),
{
    let ghost av = a@;
    v.push(a);
    assert(plan_view(v@) =~= plan_view(old(v)@).push(av));
}

/// The text of the address the DNS server listens on.
pub open spec fn dns_ip_text() -> Seq<char> {
    ipv4_text([127u8, 0u8, 53u8, 53u8])
}

fn dns_ip_string() -> (r: String)
    ensures
        r@ == dns_ip_text(),
{
    let addr = dns_listen_addr();
    match addr.ip {
        IpAddress::V4(o) => {
            let t = addr.ip.to_text();
            t
        },
        IpAddress::V6(_) => {
            assert(false);
            String::new()
        },
    }
}

/// Applies the configuration for `domains`.
pub trait SystemDnsManager {
    /// The actions that route `domains` through the daemon.
    fn apply(&self, domains: &[String]) -> Vec<SystemAction>;

    /// The actions that remove every routing the daemon configured.
    fn revert(&self) -> Vec<SystemAction>;
}

// ---------------------------------------------------------------------------
// systemd-resolved
// ---------------------------------------------------------------------------

/// Configures split DNS through a systemd-resolved drop-in file, reloading
/// the resolver after each change. Needs write access to the drop-in
/// directory (root).
pub struct SystemdConfigurator;

/// `Path::exists`: whether something is at `path` on disk now. That depends
/// on the disk, so nothing is promised of the result.
#[verifier::external_body]
fn path_exists(path: &str) -> bool {
    std::path::Path::new(path).exists()
}

/// How a domain is listed in the drop-in file: `~suffix` for a wildcard
/// `*.suffix` (the domain and all below it), `~domain.` otherwise.
pub open spec fn systemd_entry(d: Seq<char>) -> Seq<char> {
    if d.len() >= 2 && d[0] == '*' && d[1] == '.' {
        seq!['~'] + d.skip(2)
    } else {
        seq!['~'] + d + seq!['.']
    }
}

/// The entries of `ds`, separated by single spaces.
pub open spec fn systemd_domain_list(ds: Seq<Seq<char>>) -> Seq<char>
    decreases ds.len(),
{
    if ds.len() == 0 {
        Seq::empty()
    } else if ds.len() == 1 {
        systemd_entry(ds[0])
    } else {
        systemd_domain_list(ds.drop_last()) + seq![' '] + systemd_entry(ds.last())
    }
}

/// The content of the drop-in file for `ds`.
pub open spec fn systemd_content(ds: Seq<Seq<char>>) -> Seq<char> {
    "# "@ + MANAGED_MARKER@ + "\n[Resolve]\nDNS="@ + dns_ip_text() + "\nDomains="@
        + systemd_domain_list(ds) + "\n"@
}

pub open spec fn reload_resolved() -> ActionView {
    ActionView::Run(
        "systemctl"@,
        seq!["reload-or-restart"@, "systemd-resolved"@],
        "Failed to reload systemd-resolved"@,
    )
}

/// The actions that route `ds` through systemd-resolved: create the drop-in
/// directory, write the drop-in file, reload the resolver.
pub open spec fn systemd_apply_plan(ds: Seq<Seq<char>>) -> Seq<ActionView> {
    seq![
        ActionView::CreateDirAll(DROP_IN_DIR@),
        ActionView::WriteFile(DROP_IN_PATH@, systemd_content(ds)),
        reload_resolved(),
    ]
}

/// The actions that undo the systemd-resolved routing: remove the drop-in
/// file, reload the resolver.
pub open spec fn systemd_revert_plan() -> Seq<ActionView> {
    seq![ActionView::RemoveFileIfExists(DROP_IN_PATH@), reload_resolved()]
}

pub open spec fn domain_texts(ds: Seq<String>) -> Seq<Seq<char>> {
    ds.map_values(|s: String| s@)
}

fn systemd_entry_exec(d: &str) -> (r: String)
    ensures
        r@ == systemd_entry(d@),
{
    if starts_with_star_dot(d) {
        let rest = skip_chars(d, 2);
        let mut r = String::new();
        push_char(&mut r, '~');
        r.append(rest.as_str());
        assert(r@ =~= systemd_entry(d@));
        r
    } else {
        let mut r = String::new();
        push_char(&mut r, '~');
        r.append(d);
        push_char(&mut r, '.');
        assert(r@ =~= systemd_entry(d@));
        r
    }
}

fn reload_action() -> (r: SystemAction)
    ensures
        r@ == reload_resolved(),
{
    let mut args: Vec<String> = Vec::new();
    push_text(&mut args, "reload-or-restart");
    push_text(&mut args, "systemd-resolved");
    assert(texts(args@) =~= seq!["reload-or-restart"@, "systemd-resolved"@]);
    SystemAction::Run {
        program: String::from_str("systemctl"),
        args,
        failure: String::from_str("Failed to reload systemd-resolved"),
    }
}

impl SystemdConfigurator {
    /// The files that show systemd-resolved is the active resolver: its
    /// run-time `resolv.conf` and its configuration file.
    pub fn probe_paths() -> (r: (&'static str, &'static str))
        ensures
            r.0@ == "/run/systemd/resolve/resolv.conf"@,
            r.1@ == "/etc/systemd/resolved.conf"@,
    {
        ("/run/systemd/resolve/resolv.conf", "/etc/systemd/resolved.conf")
    }

    /// Whether systemd-resolved is available, given whether each of the two
    /// [`probe_paths`](Self::probe_paths) exists: when either does.
    pub fn available_from(run_conf: bool, etc_conf: bool) -> (r: bool)
        ensures
            r == (run_conf || etc_conf),
    {
        run_conf || etc_conf
    }

    /// Whether systemd-resolved is the active resolver: whether one of the
    /// [`probe_paths`](Self::probe_paths) exists on disk now
    /// ([`available_from`](Self::available_from) of the two probes).
    pub fn is_available() -> bool {
        let (run_path, etc_path) = SystemdConfigurator::probe_paths();
        let run_conf = path_exists(run_path);
        let etc_conf = path_exists(etc_path);
        SystemdConfigurator::available_from(run_conf, etc_conf)
    }

    /// The drop-in file's path.
    pub fn drop_in_path() -> (r: String)
        ensures
            r@ == DROP_IN_PATH@,
    {
        String::from_str(DROP_IN_PATH)
    }

    /// The content of the drop-in file for `domains`.
    pub fn drop_in_content(domains: &[String]) -> (r: String)
        ensures
            r@ == systemd_content(domain_texts(domains@)),
    {
        let ghost ds = domain_texts(domains@);
        let mut list = String::new();
        let mut i: usize = 0;
        while i < domains.len()
            invariant
                0 <= i <= domains.len(),
                ds == domain_texts(domains@),
                list@ == systemd_domain_list(ds.take(i as int)),
            decreases domains.len() - i,
        {
            let entry = systemd_entry_exec(domains[i].as_str());
            proof {
                let t = ds.take(i + 1);
                assert(t.drop_last() =~= ds.take(i as int));
                assert(t.last() == domains@[i as int]@);
                if i == 0 {
                    assert(ds.take(0) =~= Seq::<Seq<char>>::empty());
                }
            }
            if i > 0 {
                push_char(&mut list, ' ');
            }
            list.append(entry.as_str());
            i = i + 1;
        }
        assert(ds.take(domains.len() as int) =~= ds);
        let ip = dns_ip_string();
        let mut r = String::new();
        r.append("# ");
        r.append(MANAGED_MARKER);
        r.append("\n[Resolve]\nDNS=");
        r.append(ip.as_str());
        r.append("\nDomains=");
        r.append(list.as_str());
        r.append("\n");
        assert(r@ =~= systemd_content(ds));
        r
    }
}

impl SystemDnsManager for SystemdConfigurator {
    fn apply(&self, domains: &[String]) -> (r: Vec<SystemAction>)
        ensures
            plan_view(r@) == systemd_apply_plan(domain_texts(domains@)),
    {
        let mut r: Vec<SystemAction> = Vec::new();
        push_action(&mut r, SystemAction::CreateDirAll(String::from_str(DROP_IN_DIR)));
        push_action(
            &mut r,
            SystemAction::WriteFile {
                path: SystemdConfigurator::drop_in_path(),
                content: SystemdConfigurator::drop_in_content(domains),
            },
        );
        push_action(&mut r, reload_action());
        assert(plan_view(r@) =~= seq![
            ActionView::CreateDirAll(DROP_IN_DIR@),
            ActionView::WriteFile(DROP_IN_PATH@, systemd_content(domain_texts(domains@))),
            reload_resolved(),
        ]);
        r
    }

    fn revert(&self) -> (r: Vec<SystemAction>)
        ensures
            plan_view(r@) == systemd_revert_plan(),
    {
        let mut r: Vec<SystemAction> = Vec::new();
        push_action(&mut r, SystemAction::RemoveFileIfExists(SystemdConfigurator::drop_in_path()));
        push_action(&mut r, reload_action());
        assert(plan_view(r@) =~= seq![
            ActionView::RemoveFileIfExists(DROP_IN_PATH@),
            reload_resolved(),
        ]);
        r
    }
}

// ---------------------------------------------------------------------------
// macOS
// ---------------------------------------------------------------------------

/// Configures split DNS on macOS with one `/etc/resolver/<domain>` file per
/// domain (a wildcard's file is named after its suffix). Needs write access
/// to `/etc/resolver` (root).
pub struct MacOsConfigurator;

/// `/etc/resolver` joined with `name` (a name that is an absolute path
/// replaces the directory).
pub open spec fn resolver_path(name: Seq<char>) -> Seq<char> {
    if name.len() > 0 && name[0] == '/' {
        name
    } else {
        RESOLVER_DIR@ + seq!['/'] + name
    }
}

/// The content of every resolver file.
pub open spec fn resolver_content() -> Seq<char> {
    "# "@ + MANAGED_MARKER@ + "\nnameserver "@ + dns_ip_text() + "\n"@
}

/// The resolver files for `ds`, in order.
pub open spec fn resolver_writes(ds: Seq<Seq<char>>) -> Seq<ActionView> {
    ds.map_values(
        |d: Seq<char>|
            ActionView::WriteFile(resolver_path(replace_star_dot(d, Seq::empty())), resolver_content()),
    )
}

/// The actions that route `ds` through resolver files: create the
/// directory, remove the files written before, write one file per domain.
pub open spec fn macos_apply_plan(ds: Seq<Seq<char>>) -> Seq<ActionView> {
    seq![
        ActionView::CreateDirAll(RESOLVER_DIR@),
        ActionView::RemoveManagedFiles(RESOLVER_DIR@, MANAGED_TAG@),
    ] + resolver_writes(ds)
}

/// The action that undoes the resolver-file routing: remove every file the
/// daemon wrote.
pub open spec fn macos_revert_plan() -> Seq<ActionView> {
    seq![ActionView::RemoveManagedFiles(RESOLVER_DIR@, MANAGED_TAG@)]
}

impl MacOsConfigurator {
    /// The resolver file for a domain.
    pub fn resolver_path(domain: &str) -> (r: String)
        ensures
            r@ == resolver_path(domain@),
    {
        let v = crate::text::chars_of(domain);
        if v.len() > 0 && v[0] == '/' {
            String::from_str(domain)
        } else {
            let r = concat3(RESOLVER_DIR, "/", domain);
            proof {
                reveal_strlit("/");
                assert(r@ =~= resolver_path(domain@));
            }
            r
        }
    }

    /// The content of every resolver file.
    pub fn resolver_content() -> (r: String)
        ensures
            r@ == resolver_content(),
    {
        let ip = dns_ip_string();
        let mut r = String::new();
        r.append("# ");
        r.append(MANAGED_MARKER);
        r.append("\nnameserver ");
        r.append(ip.as_str());
        r.append("\n");
        assert(r@ =~= resolver_content());
        r
    }

    fn remove_all_files() -> (r: SystemAction)
        ensures
            r@ == ActionView::RemoveManagedFiles(RESOLVER_DIR@, MANAGED_TAG@),
    {
        SystemAction::RemoveManagedFiles {
            dir: String::from_str(RESOLVER_DIR),
            marker: String::from_str(MANAGED_TAG),
        }
    }
}

impl SystemDnsManager for MacOsConfigurator {
    fn apply(&self, domains: &[String]) -> (r: Vec<SystemAction>)
        ensures
            plan_view(r@) == macos_apply_plan(domain_texts(domains@)),
    {
        let ghost ds = domain_texts(domains@);
        let mut r: Vec<SystemAction> = Vec::new();
        push_action(&mut r, SystemAction::CreateDirAll(String::from_str(RESOLVER_DIR)));
        push_action(&mut r, MacOsConfigurator::remove_all_files());
        let ghost head = plan_view(r@);
        let mut i: usize = 0;
        while i < domains.len()
            invariant
                0 <= i <= domains.len(),
                ds == domain_texts(domains@),
                head == seq![
                    ActionView::CreateDirAll(RESOLVER_DIR@),
                    ActionView::RemoveManagedFiles(RESOLVER_DIR@, MANAGED_TAG@),
                ],
                plan_view(r@) == head + resolver_writes(ds.take(i as int)),
            decreases domains.len() - i,
        {
            let name = replace_star_dot_exec(domains[i].as_str(), "");
            proof {
                assert(""@ =~= Seq::<char>::empty()) by {
                    reveal_strlit("");
                }
            }
            let path = MacOsConfigurator::resolver_path(name.as_str());
            let content = MacOsConfigurator::resolver_content();
            push_action(&mut r, SystemAction::WriteFile { path, content });
            assert(resolver_writes(ds.take(i + 1)) =~= resolver_writes(ds.take(i as int)).push(
                ActionView::WriteFile(
                    resolver_path(replace_star_dot(ds[i as int], Seq::empty())),
                    resolver_content(),
                ),
            ));
            i = i + 1;
        }
        assert(ds.take(domains.len() as int) =~= ds);
        r
    }

    fn revert(&self) -> (r: Vec<SystemAction>)
        ensures
            plan_view(r@) == macos_revert_plan(),
    {
        let mut r: Vec<SystemAction> = Vec::new();
        push_action(&mut r, MacOsConfigurator::remove_all_files());
        assert(plan_view(r@) =~= seq![ActionView::RemoveManagedFiles(RESOLVER_DIR@, MANAGED_TAG@)]);
        r
    }
}

// ---------------------------------------------------------------------------
// Windows
// ---------------------------------------------------------------------------

/// Configures split DNS through the Windows Name Resolution Policy Table,
/// with PowerShell; the rules carry the managed marker as their comment.
/// Needs administrator rights.
pub struct WindowsNrptConfigurator;

/// The namespace of a domain in the NRPT: `.suffix` for a wildcard
/// `*.suffix`, the domain itself otherwise.
pub open spec fn nrpt_namespace(d: Seq<char>) -> Seq<char> {
    if d.len() >= 2 && d[0] == '*' && d[1] == '.' {
        seq!['.'] + d.skip(2)
    } else {
        d
    }
}

pub open spec fn remove_rules_script() -> Seq<char> {
    "Get-DnsClientNrptRule | Where-Object { $_.Comment -eq '"@ + MANAGED_MARKER@
        + "' } | Remove-DnsClientNrptRule -Force"@
}

pub open spec fn add_rule_script(namespace: Seq<char>) -> Seq<char> {
    "Add-DnsClientNrptRule -Namespace '"@ + namespace + "' -NameServers '"@ + dns_ip_text()
        + "' -Comment '"@ + MANAGED_MARKER@ + "'"@
}

/// Running `script` in PowerShell.
pub open spec fn powershell(script: Seq<char>) -> ActionView {
    ActionView::Run(
        "powershell"@,
        seq!["-NoProfile"@, "-NonInteractive"@, "-Command"@, script],
        "PowerShell command failed: "@ + script,
    )
}

pub open spec fn nrpt_adds(ds: Seq<Seq<char>>) -> Seq<ActionView> {
    ds.map_values(|d: Seq<char>| powershell(add_rule_script(nrpt_namespace(d))))
}

/// The actions that route `ds` through the NRPT: remove the rules added
/// before, add one rule per domain.
pub open spec fn nrpt_apply_plan(ds: Seq<Seq<char>>) -> Seq<ActionView> {
    seq![powershell(remove_rules_script())] + nrpt_adds(ds)
}

/// The action that undoes the NRPT routing: remove every rule the daemon
/// added.
pub open spec fn nrpt_revert_plan() -> Seq<ActionView> {
    seq![powershell(remove_rules_script())]
}

fn powershell_action(script: String) -> (r: SystemAction)
    ensures
        r@ == powershell(script@),
{
    let mut args: Vec<String> = Vec::new();
    push_text(&mut args, "-NoProfile");
    push_text(&mut args, "-NonInteractive");
    push_text(&mut args, "-Command");
    push_text(&mut args, script.as_str());
    assert(texts(args@) =~= seq!["-NoProfile"@, "-NonInteractive"@, "-Command"@, script@]);
    let failure = concat("PowerShell command failed: ", script.as_str());
    SystemAction::Run { program: String::from_str("powershell"), args, failure }
}

impl WindowsNrptConfigurator {
    fn remove_all_rules() -> (r: SystemAction)
        ensures
            r@ == powershell(remove_rules_script()),
    {
        let script = concat3(
            "Get-DnsClientNrptRule | Where-Object { $_.Comment -eq '",
            MANAGED_MARKER,
            "' } | Remove-DnsClientNrptRule -Force",
        );
        powershell_action(script)
    }

    fn namespace(d: &str) -> (r: String)
        ensures
            r@ == nrpt_namespace(d@),
    {
        if starts_with_star_dot(d) {
            let rest = skip_chars(d, 2);
            let r = concat(".", rest.as_str());
            proof {
                reveal_strlit(".");
                assert(r@ =~= nrpt_namespace(d@));
            }
            r
        } else {
            String::from_str(d)
        }
    }
}

impl SystemDnsManager for WindowsNrptConfigurator {
    fn apply(&self, domains: &[String]) -> (r: Vec<SystemAction>)
        ensures
            plan_view(r@) == nrpt_apply_plan(domain_texts(domains@)),
    {
        let ghost ds = domain_texts(domains@);
        let ip = dns_ip_string();
        let mut r: Vec<SystemAction> = Vec::new();
        push_action(&mut r, WindowsNrptConfigurator::remove_all_rules());
        let mut i: usize = 0;
        while i < domains.len()
            invariant
                0 <= i <= domains.len(),
                ds == domain_texts(domains@),
                ip@ == dns_ip_text(),
                plan_view(r@) == seq![powershell(remove_rules_script())] + nrpt_adds(
                    ds.take(i as int),
                ),
            decreases domains.len() - i,
        {
            let ns = WindowsNrptConfigurator::namespace(domains[i].as_str());
            let mut script = String::new();
            script.append("Add-DnsClientNrptRule -Namespace '");
            script.append(ns.as_str());
            script.append("' -NameServers '");
            script.append(ip.as_str());
            script.append("' -Comment '");
            script.append(MANAGED_MARKER);
            script.append("'");
            assert(script@ =~= add_rule_script(nrpt_namespace(ds[i as int])));
            push_action(&mut r, powershell_action(script));
            assert(nrpt_adds(ds.take(i + 1)) =~= nrpt_adds(ds.take(i as int)).push(
                powershell(add_rule_script(nrpt_namespace(ds[i as int]))),
            ));
            i = i + 1;
        }
        assert(ds.take(domains.len() as int) =~= ds);
        r
    }

    fn revert(&self) -> (r: Vec<SystemAction>)
        ensures
            plan_view(r@) == nrpt_revert_plan(),
    {
        let mut r: Vec<SystemAction> = Vec::new();
        push_action(&mut r, WindowsNrptConfigurator::remove_all_rules());
        assert(plan_view(r@) =~= seq![powershell(remove_rules_script())]);
        r
    }
}

// ---------------------------------------------------------------------------
// No-op and selection
// ---------------------------------------------------------------------------

/// A configurator that does nothing: the fallback where no supported
/// mechanism is available.
pub struct NoOpConfigurator;

impl SystemDnsManager for NoOpConfigurator {
    fn apply(&self, domains: &[String]) -> (r: Vec<SystemAction>)
        ensures
            plan_view(r@) == Seq::<ActionView>::empty(),
    {
        let r: Vec<SystemAction> = Vec::new();
        assert(plan_view(r@) =~= Seq::<ActionView>::empty());
        r
    }

    fn revert(&self) -> (r: Vec<SystemAction>)
        ensures
            plan_view(r@) == Seq::<ActionView>::empty(),
    {
        let r: Vec<SystemAction> = Vec::new();
        assert(plan_view(r@) =~= Seq::<ActionView>::empty());
        r
    }
}

/// The configurator chosen for a platform.
pub enum DnsManagerKind {
    Systemd(SystemdConfigurator),
    MacOs(MacOsConfigurator),
    Windows(WindowsNrptConfigurator),
    NoOp(NoOpConfigurator),
}

/// The actions with which the configurator `k` routes `ds`.
pub open spec fn apply_plan(k: DnsManagerKind, ds: Seq<Seq<char>>) -> Seq<ActionView> {
    match k {
        DnsManagerKind::Systemd(_) => systemd_apply_plan(ds),
        DnsManagerKind::MacOs(_) => macos_apply_plan(ds),
        DnsManagerKind::Windows(_) => nrpt_apply_plan(ds),
        DnsManagerKind::NoOp(_) => Seq::empty(),
    }
}

/// The actions with which the configurator `k` removes its routing.
pub open spec fn revert_plan(k: DnsManagerKind) -> Seq<ActionView> {
    match k {
        DnsManagerKind::Systemd(_) => systemd_revert_plan(),
        DnsManagerKind::MacOs(_) => macos_revert_plan(),
        DnsManagerKind::Windows(_) => nrpt_revert_plan(),
        DnsManagerKind::NoOp(_) => Seq::empty(),
    }
}

impl SystemDnsManager for DnsManagerKind {
    fn apply(&self, domains: &[String]) -> (r: Vec<SystemAction>)
        ensures
            plan_view(r@) == apply_plan(*self, domain_texts(domains@)),
    {
        match self {
            DnsManagerKind::Systemd(c) => c.apply(domains),
            DnsManagerKind::MacOs(c) => c.apply(domains),
            DnsManagerKind::Windows(c) => c.apply(domains),
            DnsManagerKind::NoOp(c) => c.apply(domains),
        }
    }

    fn revert(&self) -> (r: Vec<SystemAction>)
        ensures
            plan_view(r@) == revert_plan(*self),
    {
        match self {
            DnsManagerKind::Systemd(c) => c.revert(),
            DnsManagerKind::MacOs(c) => c.revert(),
            DnsManagerKind::Windows(c) => c.revert(),
            DnsManagerKind::NoOp(c) => c.revert(),
        }
    }
}

/// The best configurator for the platform `os`: systemd-resolved on Linux
/// when it is available, the resolver files on macOS, the NRPT on Windows,
/// and the no-op configurator otherwise.
pub fn platform_dns_manager(os: TargetOs, systemd_available: bool) -> (r: DnsManagerKind)
    ensures
        match os {
            TargetOs::Linux => if systemd_available {
                r is Systemd
            } else {
                r is NoOp
            },
            TargetOs::MacOs => r is MacOs,
            TargetOs::Windows => r is Windows,
            TargetOs::Other => r is NoOp,
        },
{
    match os {
        TargetOs::Linux => if systemd_available {
            DnsManagerKind::Systemd(SystemdConfigurator)
        } else {
            DnsManagerKind::NoOp(NoOpConfigurator)
        },
        TargetOs::MacOs => DnsManagerKind::MacOs(MacOsConfigurator),
        TargetOs::Windows => DnsManagerKind::Windows(WindowsNrptConfigurator),
        TargetOs::Other => DnsManagerKind::NoOp(NoOpConfigurator),
    }
}

} // verus!
