//! What the PowerShell commands of the Windows plans do to the Name
//! Resolution Policy Table (NRPT), as the cmdlets are documented:
//! `Add-DnsClientNrptRule` appends a rule for a namespace, and piping the
//! rules whose comment is the daemon's marker into
//! `Remove-DnsClientNrptRule` removes exactly those. Any other action
//! leaves the table as it is; a `Fail` action ends the plan.
use vstd::prelude::*;

use crate::dns_sys::{
    add_rule_script, dns_ip_text, powershell, remove_rules_script, ActionView, MANAGED_MARKER,
};

verus! {

/// One rule of the table.
pub struct NrptRule {
    pub namespace: Seq<char>,
    pub name_server: Seq<char>,
    pub comment: Seq<char>,
}

/// The rule that the daemon adds for `namespace`.
pub open spec fn daemon_rule(namespace: Seq<char>) -> NrptRule {
    NrptRule { namespace, name_server: dns_ip_text(), comment: MANAGED_MARKER@ }
}

/// The rules of `table` that do not carry the daemon's marker, in order.
pub open spec fn foreign_rules(table: Seq<NrptRule>) -> Seq<NrptRule>
    decreases table.len(),
{
    if table.len() == 0 {
        table
    } else {
        let rest = foreign_rules(table.drop_last());
        if table.last().comment == MANAGED_MARKER@ {
            rest
        } else {
            rest.push(table.last())
        }
    }
}

/// Whether `a` runs the command that adds the daemon's rule for some
/// namespace.
pub open spec fn is_rule_addition(a: ActionView) -> bool {
    exists|ns: Seq<char>| a == powershell(add_rule_script(ns))
}

/// The table after the action `a`.
pub open spec fn after_nrpt_action(table: Seq<NrptRule>, a: ActionView) -> Seq<NrptRule> {
    if a == powershell(remove_rules_script()) {
        foreign_rules(table)
    } else if is_rule_addition(a) {
        table.push(daemon_rule(choose|ns: Seq<char>| a == powershell(add_rule_script(ns))))
    } else {
        table
    }
}

/// The table after the actions of `plan`, in order; a `Fail` action ends
/// the plan.
pub open spec fn after_nrpt_plan(table: Seq<NrptRule>, plan: Seq<ActionView>) -> Seq<NrptRule>
    decreases plan.len(),
{
    if plan.len() == 0 {
        table
    } else if plan[0] is Fail {
        table
    } else {
        after_nrpt_plan(after_nrpt_action(table, plan[0]), plan.skip(1))
    }
}

/// Keeping the foreign rules of the foreign rules changes nothing.
pub proof fn lemma_foreign_rules_twice(table: Seq<NrptRule>)
    ensures
        foreign_rules(foreign_rules(table)) == foreign_rules(table),
    decreases table.len(),
{
    if table.len() > 0 {
        lemma_foreign_rules_twice(table.drop_last());
        let rest = foreign_rules(table.drop_last());
        if table.last().comment != MANAGED_MARKER@ {
            let pushed = rest.push(table.last());
            assert(pushed.drop_last() =~= rest);
            assert(pushed.last() == table.last());
        }
    }
}

/// The command that adds a rule is not the one that removes the daemon's
/// rules.
proof fn lemma_addition_is_not_removal(ns: Seq<char>)
    ensures
        powershell(add_rule_script(ns)) != powershell(remove_rules_script()),
{
    reveal_strlit("Add-DnsClientNrptRule -Namespace '");
    reveal_strlit("Get-DnsClientNrptRule | Where-Object { $_.Comment -eq '");
    let a = add_rule_script(ns);
    let r = remove_rules_script();
    assert(a[0] == 'A');
    assert(r[0] == 'G');
    if powershell(a) == powershell(r) {
        assert(seq!["-NoProfile"@, "-NonInteractive"@, "-Command"@, a][3] == seq![
            "-NoProfile"@,
            "-NonInteractive"@,
            "-Command"@,
            r,
        ][3]);
    }
}

/// Adding the daemon's rules changes nothing once its rules are removed.
pub proof fn lemma_additions_vanish(table: Seq<NrptRule>, adds: Seq<ActionView>)
    requires
        forall|i: int| 0 <= i < adds.len() ==> is_rule_addition(#[trigger] adds[i]),
    ensures
        foreign_rules(after_nrpt_plan(table, adds)) == foreign_rules(table),
    decreases adds.len(),
{
    if adds.len() > 0 {
        let a = adds[0];
        assert(is_rule_addition(a));
        let ns = choose|ns: Seq<char>| a == powershell(add_rule_script(ns));
        lemma_addition_is_not_removal(ns);
        let next = after_nrpt_action(table, a);
        let chosen = choose|ns: Seq<char>| a == powershell(add_rule_script(ns));
        assert(next == table.push(daemon_rule(chosen)));
        assert(next.drop_last() =~= table);
        let rest = adds.skip(1);
        assert forall|i: int| 0 <= i < rest.len() implies is_rule_addition(#[trigger] rest[i]) by {
            assert(rest[i] == adds[i + 1]);
        }
        lemma_additions_vanish(next, rest);
    }
}

} // verus!
