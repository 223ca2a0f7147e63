//! What holds of the proxy's rewriting and routing, of DNS answers, of the
//! system DNS configuration, and of `run` sessions, whatever the inputs.
use vstd::prelude::*;

use crate::dns_answer::{answered_address, QueryType};
use crate::dns_sys::{
    add_rule_script, macos_apply_plan, macos_revert_plan, nrpt_adds, nrpt_apply_plan,
    nrpt_namespace, nrpt_revert_plan, powershell, remove_rules_script, resolver_content,
    resolver_path, resolver_writes, systemd_apply_plan, systemd_revert_plan, ActionView,
    DROP_IN_PATH, MANAGED_TAG, RESOLVER_DIR,
};
use crate::domain::{is_valid_domain, lemma_valid_domain_shape};
use crate::platform::TargetOs;
use crate::system_store::{install_plan, linux_copy_files, trusted_by_system, LinuxTrustDirs, ProbeResult};
use crate::fs_model::{
    after_plan, file_in_dir, lemma_after_plan_concat, lemma_marked_writes_vanish,
    lemma_uniform_writes, lemma_without_marked_twice, text_has, without_marked, writes_to,
};
use crate::text::{lemma_replace_star_dot_excludes, lemma_replace_star_dot_nonempty, replace_star_dot};
use crate::net::{is_unspecified_v4, is_unspecified_v6, IpAddress, SocketTarget};
use crate::nrpt_model::{
    after_nrpt_plan, foreign_rules, is_rule_addition, lemma_additions_vanish,
    lemma_foreign_rules_twice, NrptRule,
};
use crate::proxy::{route_spec, websocket_fields, without_hop_by_hop, ProxyRoute};
use crate::rule::DnsRuleView;
use crate::run_session::{is_add_ephemeral, is_remove_ephemeral, run_step, RunAction, RunEvent, RunSession, RunState};

verus! {

/// The headers that concern only one connection.
pub open spec fn is_hop_by_hop(name: Seq<char>) -> bool {
    name == "proxy-authorization"@ || name == "proxy-authenticate"@ || name == "te"@ || name
        == "transfer-encoding"@ || name == "trailer"@ || name == "proxy-connection"@
}

/// A request passed on carries none of the hop-by-hop headers, and every
/// other header as it was, except `Connection`, which stays only for a
/// WebSocket upgrade.
pub proof fn law_hop_by_hop_never_forwarded(fields: Map<Seq<char>, Seq<Seq<u8>>>)
    ensures
        ({
            let stripped = without_hop_by_hop(fields);
            let out = if websocket_fields(stripped) {
                stripped
            } else {
                stripped.remove("connection"@)
            };
            &&& forall|n: Seq<char>| is_hop_by_hop(n) ==> !out.contains_key(n)
            &&& forall|n: Seq<char>|
                !is_hop_by_hop(n) && n != "connection"@ && fields.contains_key(n) ==> out.contains_key(
                    n,
                ) && out[n] == fields[n]
            &&& out.contains_key("connection"@) ==> websocket_fields(stripped)
        }),
{
}

/// A request is redirected exactly when its rule asks for HTTPS and it
/// came in plain; a redirect always leads to `https://` and the same host.
pub proof fn law_redirect_only_to_https(
    host: Seq<char>,
    rule: Option<DnsRuleView>,
    is_tls: bool,
    path_and_query: Option<Seq<char>>,
    r: ProxyRoute,
)
    requires
        route_spec(host, rule, is_tls, path_and_query, r),
    ensures
        (r is Redirect) == (rule matches Some(rv) && rv.https && !is_tls),
        r matches ProxyRoute::Redirect(l) ==> l@.take(8 + host.len() as int) == "https://"@ + host,
{
    if let ProxyRoute::Redirect(l) = r {
        reveal_strlit("https://");
        let rest = match path_and_query {
            Some(pq) => pq,
            None => "/"@,
        };
        assert(l@ == ("https://"@ + host) + rest);
        assert(l@.take(8 + host.len() as int) =~= "https://"@ + host);
    }
}

/// Traffic is never sent to an unspecified address (`0.0.0.0`, `::`): such
/// a rule target stands for the loopback address of its family, on the
/// same port.
pub proof fn law_forward_never_unspecified(
    host: Seq<char>,
    rule: Option<DnsRuleView>,
    is_tls: bool,
    path_and_query: Option<Seq<char>>,
    r: ProxyRoute,
)
    requires
        route_spec(host, rule, is_tls, path_and_query, r),
    ensures
        r matches ProxyRoute::Forward(t) ==> (match t.ip {
            IpAddress::V4(o) => !is_unspecified_v4(o),
            IpAddress::V6(g) => !is_unspecified_v6(g),
        } && (rule matches Some(rv) && t.port == rv.target.port)),
{
    if let ProxyRoute::Forward(t) = r {
        let rv = rule->0;
        match rv.target.ip {
            IpAddress::V4(o) => {
                if is_unspecified_v4(o) {
                    assert([127u8, 0u8, 0u8, 1u8]@[0] == 127u8);
                }
            },
            IpAddress::V6(g) => {
                if is_unspecified_v6(g) {
                    assert([0u16, 0u16, 0u16, 0u16, 0u16, 0u16, 0u16, 1u16]@[7] == 1u16);
                }
            },
        }
    }
}

/// A local DNS answer carries an address only of the family that was
/// asked for, and nothing for a query that is not for an address.
pub proof fn law_local_answer_family(ip: IpAddress, q: QueryType)
    ensures
        answered_address(ip, q) matches Some(a) ==> a == ip && ((q is A && ip is V4) || (q is Aaaa
            && ip is V6)),
        q is Other ==> answered_address(ip, q) is None,
{
}

/// While its rule is active, a `run` session removes the rule whenever the
/// command ends or Ctrl-C is pressed; only when the daemon itself stops is
/// there nothing to remove.
pub proof fn law_run_removes_rule_when_command_ends(
    s: RunSession,
    e: RunEvent,
    next: RunState,
    a: RunAction,
)
    requires
        run_step(s, e, next, a),
        s.state is Running,
        e is Interrupted || e is ChildExited || e is ChildFailed,
    ensures
        (a matches RunAction::Send(r) && is_remove_ephemeral(r, s.domain@)) || (
        a matches RunAction::KillThenSend(r) && is_remove_ephemeral(r, s.domain@)),
        next is Unregistering,
{
}

/// A `run` session only ever asks for an ephemeral rule for its own domain
/// and HTTPS setting, to the target it then registers.
pub proof fn law_run_registers_own_domain(
    s: RunSession,
    e: RunEvent,
    next: RunState,
    a: RunAction,
)
    requires
        run_step(s, e, next, a),
        a matches RunAction::Send(r) && r is AddEphemeral,
    ensures
        a matches RunAction::Send(r) && exists|t| #[trigger] is_add_ephemeral(r, s.domain@, t, s.https)
            && (next == RunState::Registering(t) || next == RunState::Announcing(t)),
{
}

/// With a port given, the ephemeral rule is in place before the command
/// starts: a session launches its command only on the daemon's acceptance
/// of the rule it asked for.
pub proof fn law_run_rule_before_launch(s: RunSession, e: RunEvent, next: RunState, a: RunAction)
    requires
        run_step(s, e, next, a),
        s.port is Some,
        a is Launch,
    ensures
        s.state is Announcing,
        e matches RunEvent::Registered(resp) && !(resp is Error),
{
}

/// With a port given, a session that begins with a command first asks for
/// the ephemeral rule for its domain, to the given port.
pub proof fn law_run_asks_rule_first(s: RunSession, next: RunState, a: RunAction)
    requires
        run_step(s, RunEvent::Begin, next, a),
        s.state is Start,
        s.command@.len() > 0,
        s.port is Some,
    ensures
        a matches RunAction::Send(r) && is_add_ephemeral(
            r,
            s.domain@,
            SocketTarget { ip: s.ip, port: s.port->0 },
            s.https,
        ),
{
}

/// With a port given, when the command cannot start or its port does not
/// open in time, the rule already in place is removed.
pub proof fn law_run_removes_rule_when_start_fails(
    s: RunSession,
    e: RunEvent,
    next: RunState,
    a: RunAction,
)
    requires
        run_step(s, e, next, a),
        s.port is Some,
        (s.state is Launching && e is LaunchFailed) || (s.state is WaitingForPort && e
            == RunEvent::PortOpened(false)),
    ensures
        (a matches RunAction::Send(r) && is_remove_ephemeral(r, s.domain@)) || (
        a matches RunAction::KillThenSend(r) && is_remove_ephemeral(r, s.domain@)),
        next == RunState::Unregistering(1),
{
}

/// A `run` session ends with the command's own exit code: 0 ends it
/// normally, any other code is passed on.
pub proof fn law_run_passes_exit_code(s: RunSession, code: Option<i32>, next: RunState, a: RunAction, next2: RunState, a2: RunAction)
    requires
        s.state is Running,
        run_step(s, RunEvent::ChildExited(code), next, a),
        run_step(RunSession { state: next, ..s }, RunEvent::Unregistered, next2, a2),
    ensures
        code == Some(0i32) ==> a2 == RunAction::Finish,
        (code matches Some(c) && c != 0) ==> a2 == RunAction::Exit(code->0),
        code is None ==> a2 == RunAction::Exit(1),
        next2 == RunState::Done,
{
}


/// After `daemon stop` on systemd-resolved, every file is as it was before
/// `daemon start`, except the daemon's drop-in file, which is gone.
pub proof fn law_systemd_revert_undoes_apply(
    files: Map<Seq<char>, Seq<char>>,
    domains: Seq<Seq<char>>,
)
    ensures
        after_plan(after_plan(files, systemd_apply_plan(domains)), systemd_revert_plan())
            == files.remove(DROP_IN_PATH@),
{
    reveal_with_fuel(after_plan, 4);
    assert(after_plan(after_plan(files, systemd_apply_plan(domains)), systemd_revert_plan())
        =~= files.remove(DROP_IN_PATH@));
}

/// On systemd-resolved, configuring the domains anew replaces what an
/// earlier configuration wrote: the files are those of the last one alone.
pub proof fn law_systemd_apply_replaces(
    files: Map<Seq<char>, Seq<char>>,
    first: Seq<Seq<char>>,
    second: Seq<Seq<char>>,
)
    ensures
        after_plan(after_plan(files, systemd_apply_plan(first)), systemd_apply_plan(second))
            == after_plan(files, systemd_apply_plan(second)),
{
    reveal_with_fuel(after_plan, 4);
    assert(after_plan(after_plan(files, systemd_apply_plan(first)), systemd_apply_plan(second))
        =~= after_plan(files, systemd_apply_plan(second)));
}

/// The resolver file of a domain.
pub open spec fn resolver_file(domain: Seq<char>) -> Seq<char> {
    resolver_path(replace_star_dot(domain, Seq::empty()))
}

/// No file that is not the daemon's own stands where the resolver file of
/// one of `domains` goes.
pub open spec fn no_foreign_resolver_files(
    files: Map<Seq<char>, Seq<char>>,
    domains: Seq<Seq<char>>,
) -> bool {
    forall|i: int|
        0 <= i < domains.len() && files.dom().contains(#[trigger] resolver_file(domains[i]))
            ==> text_has(files[resolver_file(domains[i])], MANAGED_TAG@)
}

/// The resolver file of a valid domain lies directly in the resolver
/// directory, and every resolver file is marked as the daemon's.
proof fn lemma_resolver_writes_marked(domains: Seq<Seq<char>>)
    requires
        forall|i: int| 0 <= i < domains.len() ==> is_valid_domain(#[trigger] domains[i]),
    ensures
        forall|i: int|
            0 <= i < domains.len() ==> (#[trigger] resolver_writes(domains)[i] == ActionView::WriteFile(
                resolver_file(domains[i]),
                resolver_content(),
            ) && file_in_dir(resolver_file(domains[i]), RESOLVER_DIR@)),
        text_has(resolver_content(), MANAGED_TAG@),
{
    assert forall|i: int| 0 <= i < domains.len() implies (#[trigger] resolver_writes(domains)[i]
        == ActionView::WriteFile(resolver_file(domains[i]), resolver_content()) && file_in_dir(
        resolver_file(domains[i]),
        RESOLVER_DIR@,
    )) by {
        let d = domains[i];
        let name = replace_star_dot(d, Seq::empty());
        lemma_valid_domain_shape(d);
        lemma_replace_star_dot_excludes(d, Seq::empty(), '/');
        lemma_replace_star_dot_nonempty(d, Seq::empty());
        assert(name[0] != '/');
        let p = resolver_file(d);
        let dir = RESOLVER_DIR@;
        assert(p == dir + seq!['/'] + name);
        assert(p.take(dir.len() as int) =~= dir);
        assert forall|k: int| dir.len() < k < p.len() implies p[k] != '/' by {
            assert(p[k] == name[k - dir.len() - 1]);
        }
    }
    let content = resolver_content();
    let tag = MANAGED_TAG@;
    reveal_strlit("# ");
    reveal_strlit("Managed by SideDNS — do not edit manually");
    reveal_strlit("Managed by SideDNS");
    assert(content.subrange(2, 2 + tag.len() as int) =~= tag);
}

/// After `daemon stop` with resolver files (macOS), every file is as it was
/// before `daemon start`, except the resolver files marked as the daemon's,
/// which are gone; for valid domains, wherever no foreign file stood at the
/// path of a domain's resolver file.
pub proof fn law_macos_revert_undoes_apply(
    files: Map<Seq<char>, Seq<char>>,
    domains: Seq<Seq<char>>,
)
    requires
        forall|i: int| 0 <= i < domains.len() ==> is_valid_domain(#[trigger] domains[i]),
        no_foreign_resolver_files(files, domains),
    ensures
        after_plan(after_plan(files, macos_apply_plan(domains)), macos_revert_plan())
            == without_marked(files, RESOLVER_DIR@, MANAGED_TAG@),
{
    let dir = RESOLVER_DIR@;
    let tag = MANAGED_TAG@;
    let configured = after_plan(files, macos_apply_plan(domains));
    lemma_macos_configured(files, domains);
    reveal_with_fuel(after_plan, 2);
    assert(after_plan(configured, macos_revert_plan()) == without_marked(configured, dir, tag));
}

/// What configuring resolver files leaves: the daemon's earlier files are
/// removed, and once the new ones are removed too, the rest is as before.
proof fn lemma_macos_configured(files: Map<Seq<char>, Seq<char>>, domains: Seq<Seq<char>>)
    requires
        forall|i: int| 0 <= i < domains.len() ==> is_valid_domain(#[trigger] domains[i]),
        no_foreign_resolver_files(files, domains),
    ensures
        after_plan(files, macos_apply_plan(domains)) == after_plan(
            without_marked(files, RESOLVER_DIR@, MANAGED_TAG@),
            resolver_writes(domains),
        ),
        without_marked(after_plan(files, macos_apply_plan(domains)), RESOLVER_DIR@, MANAGED_TAG@)
            == without_marked(files, RESOLVER_DIR@, MANAGED_TAG@),
{
    let dir = RESOLVER_DIR@;
    let tag = MANAGED_TAG@;
    let head = seq![ActionView::CreateDirAll(dir), ActionView::RemoveManagedFiles(dir, tag)];
    let writes = resolver_writes(domains);
    let cleaned = without_marked(files, dir, tag);
    assert(macos_apply_plan(domains) == head + writes);
    lemma_after_plan_concat(files, head, writes);
    reveal_with_fuel(after_plan, 3);
    assert(after_plan(files, head) == cleaned);
    lemma_resolver_writes_marked(domains);
    assert forall|i: int| 0 <= i < writes.len() implies (#[trigger] writes[i] matches ActionView::WriteFile(
        p,
        c,
    ) && file_in_dir(p, dir) && text_has(c, tag) && (cleaned.dom().contains(p) ==> text_has(
        cleaned[p],
        tag,
    ))) by {
        assert(writes[i] == ActionView::WriteFile(resolver_file(domains[i]), resolver_content()));
        assert(files.dom().contains(resolver_file(domains[i])) ==> text_has(
            files[resolver_file(domains[i])],
            tag,
        ));
    }
    lemma_marked_writes_vanish(cleaned, writes, dir, tag);
    lemma_without_marked_twice(files, dir, tag);
}

/// With resolver files (macOS), configuring the domains anew replaces what
/// an earlier configuration of valid domains wrote, wherever no foreign file
/// stood at the path of one of their resolver files.
pub proof fn law_macos_apply_replaces(
    files: Map<Seq<char>, Seq<char>>,
    first: Seq<Seq<char>>,
    second: Seq<Seq<char>>,
)
    requires
        forall|i: int| 0 <= i < first.len() ==> is_valid_domain(#[trigger] first[i]),
        no_foreign_resolver_files(files, first),
    ensures
        after_plan(after_plan(files, macos_apply_plan(first)), macos_apply_plan(second))
            == after_plan(files, macos_apply_plan(second)),
{
    let dir = RESOLVER_DIR@;
    let tag = MANAGED_TAG@;
    let configured = after_plan(files, macos_apply_plan(first));
    lemma_macos_configured(files, first);
    let head = seq![ActionView::CreateDirAll(dir), ActionView::RemoveManagedFiles(dir, tag)];
    let writes = resolver_writes(second);
    assert(macos_apply_plan(second) == head + writes);
    lemma_after_plan_concat(configured, head, writes);
    lemma_after_plan_concat(files, head, writes);
    reveal_with_fuel(after_plan, 3);
    assert(after_plan(configured, head) == without_marked(configured, dir, tag));
    assert(after_plan(files, head) == without_marked(files, dir, tag));
}


/// The table after the Windows configuration of `domains`: the daemon's
/// earlier rules are removed, then one rule per domain is added.
proof fn lemma_nrpt_configured(table: Seq<NrptRule>, domains: Seq<Seq<char>>)
    ensures
        after_nrpt_plan(table, nrpt_apply_plan(domains)) == after_nrpt_plan(
            foreign_rules(table),
            nrpt_adds(domains),
        ),
        foreign_rules(after_nrpt_plan(table, nrpt_apply_plan(domains))) == foreign_rules(table),
{
    let plan = nrpt_apply_plan(domains);
    let adds = nrpt_adds(domains);
    assert(plan[0] == powershell(remove_rules_script()));
    assert(plan.skip(1) =~= adds);
    assert forall|i: int| 0 <= i < adds.len() implies is_rule_addition(#[trigger] adds[i]) by {
        assert(adds[i] == powershell(add_rule_script(nrpt_namespace(domains[i]))));
    }
    lemma_additions_vanish(foreign_rules(table), adds);
    lemma_foreign_rules_twice(table);
}

/// After `daemon stop` on Windows, the name resolution policy table holds
/// exactly the rules it held before `daemon start` that are not the
/// daemon's, in their order.
pub proof fn law_windows_revert_undoes_apply(table: Seq<NrptRule>, domains: Seq<Seq<char>>)
    ensures
        after_nrpt_plan(after_nrpt_plan(table, nrpt_apply_plan(domains)), nrpt_revert_plan())
            == foreign_rules(table),
{
    lemma_nrpt_configured(table, domains);
    let configured = after_nrpt_plan(table, nrpt_apply_plan(domains));
    reveal_with_fuel(after_nrpt_plan, 2);
    assert(after_nrpt_plan(configured, nrpt_revert_plan()) == foreign_rules(configured));
}

/// On Windows, configuring the domains anew replaces the rules that an
/// earlier configuration added.
pub proof fn law_windows_apply_replaces(
    table: Seq<NrptRule>,
    first: Seq<Seq<char>>,
    second: Seq<Seq<char>>,
)
    ensures
        after_nrpt_plan(after_nrpt_plan(table, nrpt_apply_plan(first)), nrpt_apply_plan(second))
            == after_nrpt_plan(table, nrpt_apply_plan(second)),
{
    lemma_nrpt_configured(table, first);
    let configured = after_nrpt_plan(table, nrpt_apply_plan(first));
    lemma_nrpt_configured(configured, second);
    lemma_nrpt_configured(table, second);
}


/// Reverting twice leaves the files and the name resolution policy table
/// as reverting once does, on every platform.
pub proof fn law_revert_idempotent(files: Map<Seq<char>, Seq<char>>, table: Seq<NrptRule>)
    ensures
        after_plan(after_plan(files, systemd_revert_plan()), systemd_revert_plan()) == after_plan(
            files,
            systemd_revert_plan(),
        ),
        after_plan(after_plan(files, macos_revert_plan()), macos_revert_plan()) == after_plan(
            files,
            macos_revert_plan(),
        ),
        after_nrpt_plan(after_nrpt_plan(table, nrpt_revert_plan()), nrpt_revert_plan())
            == after_nrpt_plan(table, nrpt_revert_plan()),
{
    reveal_with_fuel(after_plan, 3);
    reveal_with_fuel(after_nrpt_plan, 2);
    assert(after_plan(after_plan(files, systemd_revert_plan()), systemd_revert_plan())
        =~= after_plan(files, systemd_revert_plan()));
    lemma_without_marked_twice(files, RESOLVER_DIR@, MANAGED_TAG@);
    lemma_foreign_rules_twice(table);
}


/// `p` is the resolver file of one of `domains`.
pub open spec fn is_resolver_file_of(p: Seq<char>, domains: Seq<Seq<char>>) -> bool {
    exists|i: int| 0 <= i < domains.len() && p == #[trigger] resolver_file(domains[i])
}

/// After configuring resolver files (macOS) for valid domains, each
/// domain's resolver file holds the daemon's content; the files in the
/// resolver directory marked as the daemon's are exactly those; and every
/// other file is as it was, unless it was one of the daemon's marked files
/// from before, which are gone.
pub proof fn law_macos_apply_files(files: Map<Seq<char>, Seq<char>>, domains: Seq<Seq<char>>)
    requires
        forall|i: int| 0 <= i < domains.len() ==> is_valid_domain(#[trigger] domains[i]),
    ensures
        forall|i: int|
            0 <= i < domains.len() ==> after_plan(files, macos_apply_plan(domains)).contains_key(
                #[trigger] resolver_file(domains[i]),
            ) && after_plan(files, macos_apply_plan(domains))[resolver_file(domains[i])]
                == resolver_content(),
        forall|p: Seq<char>|
            after_plan(files, macos_apply_plan(domains)).contains_key(p) && file_in_dir(
                p,
                RESOLVER_DIR@,
            ) && text_has(#[trigger] after_plan(files, macos_apply_plan(domains))[p], MANAGED_TAG@)
                ==> is_resolver_file_of(p, domains),
        forall|p: Seq<char>|
            !is_resolver_file_of(p, domains) && !(file_in_dir(p, RESOLVER_DIR@)
                && files.contains_key(p) && text_has(files[p], MANAGED_TAG@)) ==> (#[trigger] after_plan(
                files,
                macos_apply_plan(domains),
            ).contains_key(p) == files.contains_key(p) && (files.contains_key(p) ==> after_plan(
                files,
                macos_apply_plan(domains),
            )[p] == files[p])),
{
    let dir = RESOLVER_DIR@;
    let tag = MANAGED_TAG@;
    let content = resolver_content();
    let head = seq![ActionView::CreateDirAll(dir), ActionView::RemoveManagedFiles(dir, tag)];
    let writes = resolver_writes(domains);
    let cleaned = without_marked(files, dir, tag);
    let after = after_plan(files, macos_apply_plan(domains));
    assert(macos_apply_plan(domains) == head + writes);
    lemma_after_plan_concat(files, head, writes);
    reveal_with_fuel(after_plan, 3);
    assert(after_plan(files, head) == cleaned);
    assert(after == after_plan(cleaned, writes));
    lemma_resolver_writes_marked(domains);
    assert forall|i: int| 0 <= i < writes.len() implies (#[trigger] writes[i] matches ActionView::WriteFile(
        _,
        c,
    ) && c == content) by {
        assert(writes[i] == ActionView::WriteFile(resolver_file(domains[i]), content));
    }
    lemma_uniform_writes(cleaned, writes, content);
    assert forall|p: Seq<char>| writes_to(writes, p, content) <==> is_resolver_file_of(p, domains) by {
        if writes_to(writes, p, content) {
            let i = choose|i: int|
                0 <= i < writes.len() && #[trigger] writes[i] == ActionView::WriteFile(p, content);
            assert(writes[i] == ActionView::WriteFile(resolver_file(domains[i]), content));
        }
        if is_resolver_file_of(p, domains) {
            let i = choose|i: int| 0 <= i < domains.len() && p == #[trigger] resolver_file(domains[i]);
            assert(writes[i] == ActionView::WriteFile(resolver_file(domains[i]), content));
        }
    }
    assert forall|i: int| 0 <= i < domains.len() implies after.contains_key(
        #[trigger] resolver_file(domains[i]),
    ) && after[resolver_file(domains[i])] == content by {
        assert(is_resolver_file_of(resolver_file(domains[i]), domains));
        assert(writes_to(writes, resolver_file(domains[i]), content));
    }
    assert forall|p: Seq<char>|
        after.contains_key(p) && file_in_dir(p, dir) && text_has(#[trigger] after[p], tag)
            implies is_resolver_file_of(p, domains) by {
        if !writes_to(writes, p, content) {
            assert(cleaned.contains_key(p));
            assert(after[p] == cleaned[p]);
        }
    }
    assert forall|p: Seq<char>|
        !is_resolver_file_of(p, domains) && !(file_in_dir(p, dir) && files.contains_key(p)
            && text_has(files[p], tag)) implies (#[trigger] after.contains_key(p)
        == files.contains_key(p) && (files.contains_key(p) ==> after[p] == files[p])) by {
        assert(!writes_to(writes, p, content));
    }
}


/// Some copy that the Linux installed-check looks at is among `files`.
pub open spec fn linux_copy_present(files: Map<Seq<char>, Seq<char>>) -> bool {
    exists|i: int| 0 <= i < 3 && files.contains_key(#[trigger] linux_copy_files()[i])
}

/// On Linux, once the system install has run (the certificate's file
/// exists and the directory of a known family does), a copy that the
/// installed-check looks at is in place, so the system store reports the
/// certificate as trusted whatever its probe gives.
pub proof fn law_linux_installed_after_install(
    files: Map<Seq<char>, Seq<char>>,
    cert_path: Seq<char>,
    dirs: LinuxTrustDirs,
    probe: Option<ProbeResult>,
    fingerprint: Option<String>,
)
    requires
        files.contains_key(cert_path),
        dirs.debian || dirs.fedora || dirs.arch,
    ensures
        linux_copy_present(after_plan(files, install_plan(TargetOs::Linux, cert_path, dirs))),
        trusted_by_system(
            TargetOs::Linux,
            probe,
            fingerprint,
            linux_copy_present(after_plan(files, install_plan(TargetOs::Linux, cert_path, dirs))),
        ),
{
    reveal_with_fuel(after_plan, 3);
    let after = after_plan(files, install_plan(TargetOs::Linux, cert_path, dirs));
    let k: int = if dirs.debian {
        0
    } else if dirs.fedora {
        1
    } else {
        2
    };
    assert(after.contains_key(linux_copy_files()[k]));
}

} // verus!
