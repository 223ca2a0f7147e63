//! Laws of the rule store, stated over its model.
use vstd::prelude::*;

use crate::rule::{is_wildcard_pattern, pattern_matches, DnsRuleView};
use crate::store_model::{
    distinct_domains, exact_layer, first_match, index_of_domain, lemma_first_match_at,
    lemma_first_match_none, lemma_first_match_some, lemma_index_of_domain, lists_layer,
    swap_remove, wildcard_layer, without_domain, StoreModel,
};

verus! {

/// Taking the rule for `d` out of a wildcard list keeps it a wildcard list
/// and leaves no rule for `d`.
proof fn lemma_without_domain(s: Seq<DnsRuleView>, d: Seq<char>)
    requires
        wildcard_layer(s),
    ensures
        wildcard_layer(without_domain(s, d)),
        forall|i: int|
            0 <= i < without_domain(s, d).len() ==> #[trigger] without_domain(s, d)[i].domain != d,
        without_domain(s, d).len() == s.len() - (if index_of_domain(s, d) is Some {
            1int
        } else {
            0int
        }),
{
    let t = without_domain(s, d);
    if index_of_domain(s, d) is Some {
        let k = index_of_domain(s, d)->0;
        assert forall|i: int| 0 <= i < t.len() implies #[trigger] t[i].domain != d
            && is_wildcard_pattern(t[i].domain) by {
            if i < k {
                assert(t[i] == s[i]);
            } else {
                assert(t[i] == s[i + 1]);
            }
        }
        assert forall|a: int, b: int|
            0 <= a < t.len() && 0 <= b < t.len() && a != b implies #[trigger] t[a].domain
            != #[trigger] t[b].domain by {
            let oa = if a < k { a } else { a + 1 };
            let ob = if b < k { b } else { b + 1 };
            assert(t[a] == s[oa]);
            assert(t[b] == s[ob]);
        }
    }
}

/// Swap-removing from a wildcard list keeps it a wildcard list.
proof fn lemma_swap_remove_layer(s: Seq<DnsRuleView>, k: int)
    requires
        wildcard_layer(s),
        0 <= k < s.len(),
    ensures
        wildcard_layer(swap_remove(s, k)),
        swap_remove(s, k).len() == s.len() - 1,
        forall|i: int|
            0 <= i < swap_remove(s, k).len() ==> #[trigger] swap_remove(s, k)[i].domain
                != s[k].domain,
{
    let t = swap_remove(s, k);
    assert forall|i: int| 0 <= i < t.len() implies #[trigger] t[i].domain != s[k].domain
        && is_wildcard_pattern(t[i].domain) by {
        let oi = if i == k { s.len() - 1 } else { i };
        assert(t[i] == s[oi]);
    }
    assert forall|a: int, b: int|
        0 <= a < t.len() && 0 <= b < t.len() && a != b implies #[trigger] t[a].domain
        != #[trigger] t[b].domain by {
        let oa = if a == k { s.len() - 1 } else { a };
        let ob = if b == k { s.len() - 1 } else { b };
        assert(t[a] == s[oa]);
        assert(t[b] == s[ob]);
    }
}

proof fn lemma_exact_insert(m: Map<Seq<char>, DnsRuleView>, r: DnsRuleView)
    requires
        exact_layer(m),
        !is_wildcard_pattern(r.domain),
    ensures
        exact_layer(m.insert(r.domain, r)),
        m.insert(r.domain, r).len() == m.len() + (if m.contains_key(r.domain) {
            0int
        } else {
            1int
        }),
{
    if m.contains_key(r.domain) {
        assert(m.dom().insert(r.domain) =~= m.dom());
    }
}

proof fn lemma_exact_remove(m: Map<Seq<char>, DnsRuleView>, d: Seq<char>)
    requires
        exact_layer(m),
    ensures
        exact_layer(m.remove(d)),
        m.remove(d).len() <= m.len(),
{
    if !m.contains_key(d) {
        assert(m.dom().remove(d) =~= m.dom());
    }
}

/// The rule that `resolve` returns applies to the domain asked for.
pub proof fn law_resolve_sound(m: StoreModel, d: Seq<char>)
    requires
        m.wf(),
        m.resolve(d) is Some,
    ensures
        pattern_matches(m.resolve(d)->0.domain, d),
{
    if !m.ephemeral_exact.contains_key(d) {
        if first_match(m.ephemeral_wildcard, d) is Some {
            lemma_first_match_some(m.ephemeral_wildcard, d);
        } else if !m.persistent_exact.contains_key(d) {
            lemma_first_match_some(m.persistent_wildcard, d);
        }
    }
}

/// Some rule of the store applies to `d`: an exact rule for `d` in either
/// layer, or a wildcard of either layer that covers `d`.
pub open spec fn some_rule_applies(m: StoreModel, d: Seq<char>) -> bool {
    ||| m.ephemeral_exact.contains_key(d)
    ||| m.persistent_exact.contains_key(d)
    ||| exists|i: int|
        0 <= i < m.ephemeral_wildcard.len() && pattern_matches(
            #[trigger] m.ephemeral_wildcard[i].domain,
            d,
        )
    ||| exists|i: int|
        0 <= i < m.persistent_wildcard.len() && pattern_matches(
            #[trigger] m.persistent_wildcard[i].domain,
            d,
        )
}

/// `resolve` finds nothing exactly when no rule of the store applies.
pub proof fn law_resolve_none_iff_nothing_applies(m: StoreModel, d: Seq<char>)
    requires
        m.wf(),
    ensures
        m.resolve(d) is None <==> !some_rule_applies(m, d),
{
    lemma_first_match_none(m.ephemeral_wildcard, d);
    lemma_first_match_none(m.persistent_wildcard, d);
}

/// While an ephemeral rule serves `d`, the persistent rules do not matter:
/// replacing both persistent layers leaves the answer unchanged.
pub proof fn law_ephemeral_shadows_persistent(
    m: StoreModel,
    d: Seq<char>,
    exact: Map<Seq<char>, DnsRuleView>,
    wildcard: Seq<DnsRuleView>,
)
    requires
        m.ephemeral_exact.contains_key(d) || first_match(m.ephemeral_wildcard, d) is Some,
    ensures
        (StoreModel { persistent_exact: exact, persistent_wildcard: wildcard, ..m }).resolve(d)
            == m.resolve(d),
{
}

/// Within a layer, the exact rule for `d` wins over every wildcard.
pub proof fn law_exact_beats_wildcard(m: StoreModel, d: Seq<char>)
    requires
        !m.ephemeral_exact.contains_key(d),
        first_match(m.ephemeral_wildcard, d) is None,
        m.persistent_exact.contains_key(d),
    ensures
        m.resolve(d) == Some(m.persistent_exact[d]),
{
}

/// After adding an exact ephemeral rule, its domain resolves to it.
pub proof fn law_add_ephemeral_then_resolve(m: StoreModel, r: DnsRuleView)
    requires
        !is_wildcard_pattern(r.domain),
    ensures
        m.add_ephemeral(r).resolve(r.domain) == Some(r),
{
}

/// After adding an exact persistent rule, its domain resolves to it unless
/// an ephemeral rule serves that domain.
pub proof fn law_add_then_resolve(m: StoreModel, r: DnsRuleView)
    requires
        !is_wildcard_pattern(r.domain),
        !m.ephemeral_exact.contains_key(r.domain),
        first_match(m.ephemeral_wildcard, r.domain) is None,
    ensures
        m.add(r).resolve(r.domain) == Some(r),
{
}

/// Adding a wildcard rule makes it serve the domains it covers that no
/// other rule serves before it.
pub proof fn law_add_wildcard_then_resolve(m: StoreModel, r: DnsRuleView, d: Seq<char>)
    requires
        m.wf(),
        is_wildcard_pattern(r.domain),
        pattern_matches(r.domain, d),
        !m.ephemeral_exact.contains_key(d),
        first_match(m.ephemeral_wildcard, d) is None,
        !m.persistent_exact.contains_key(d),
        first_match(m.persistent_wildcard, d) is None,
    ensures
        m.add(r).resolve(d) == Some(r),
{
    let w = without_domain(m.persistent_wildcard, r.domain);
    let s = w.push(r);
    lemma_first_match_none(m.persistent_wildcard, d);
    assert forall|j: int| 0 <= j < s.len() - 1 implies !pattern_matches(
        #[trigger] s[j].domain,
        d,
    ) by {
        assert(s[j] == w[j]);
        if index_of_domain(m.persistent_wildcard, r.domain) is Some {
            let k = index_of_domain(m.persistent_wildcard, r.domain)->0;
            if j < k {
                assert(w[j] == m.persistent_wildcard[j]);
            } else {
                assert(w[j] == m.persistent_wildcard[j + 1]);
            }
        }
    }
    assert(is_first_match(s, d, s.len() - 1));
    lemma_first_match_at(s, d, s.len() - 1);
}

use crate::store_model::is_first_match;

/// Every operation keeps the store well formed.
pub proof fn law_operations_keep_wf(m: StoreModel, r: DnsRuleView, d: Seq<char>)
    requires
        m.wf(),
    ensures
        m.len() < usize::MAX ==> m.add(r).wf(),
        m.len() < usize::MAX ==> m.add_ephemeral(r).wf(),
        m.remove(d).wf(),
        m.remove_ephemeral(d).wf(),
{
    law_add_len(m, r);
    lemma_without_domain(m.persistent_wildcard, r.domain);
    lemma_without_domain(m.ephemeral_wildcard, r.domain);
    if !is_wildcard_pattern(r.domain) {
        lemma_exact_insert(m.persistent_exact, r);
        lemma_exact_insert(m.ephemeral_exact, r);
    }
    lemma_exact_remove(m.persistent_exact, d);
    lemma_exact_remove(m.ephemeral_exact, d);
    if index_of_domain(m.persistent_wildcard, d) is Some {
        lemma_swap_remove_layer(m.persistent_wildcard, index_of_domain(m.persistent_wildcard, d)->0);
    }
    if index_of_domain(m.ephemeral_wildcard, d) is Some {
        lemma_swap_remove_layer(m.ephemeral_wildcard, index_of_domain(m.ephemeral_wildcard, d)->0);
    }
    if is_wildcard_pattern(r.domain) {
        let w = without_domain(m.persistent_wildcard, r.domain).push(r);
        assert forall|a: int, b: int|
            0 <= a < w.len() && 0 <= b < w.len() && a != b implies #[trigger] w[a].domain
            != #[trigger] w[b].domain by {
            if a < w.len() - 1 {
                assert(w[a] == without_domain(m.persistent_wildcard, r.domain)[a]);
            }
            if b < w.len() - 1 {
                assert(w[b] == without_domain(m.persistent_wildcard, r.domain)[b]);
            }
        }
        let e = without_domain(m.ephemeral_wildcard, r.domain).push(r);
        assert forall|a: int, b: int|
            0 <= a < e.len() && 0 <= b < e.len() && a != b implies #[trigger] e[a].domain
            != #[trigger] e[b].domain by {
            if a < e.len() - 1 {
                assert(e[a] == without_domain(m.ephemeral_wildcard, r.domain)[a]);
            }
            if b < e.len() - 1 {
                assert(e[b] == without_domain(m.ephemeral_wildcard, r.domain)[b]);
            }
        }
    }
    law_remove_len(m, d);
}

/// Adding a rule grows the store by one unless a rule for the same domain
/// (in the same layer and of the same kind) is replaced.
pub proof fn law_add_len(m: StoreModel, r: DnsRuleView)
    requires
        m.wf(),
    ensures
        m.add(r).len() == m.len() + (if is_wildcard_pattern(r.domain) {
            if index_of_domain(m.persistent_wildcard, r.domain) is Some {
                0int
            } else {
                1int
            }
        } else if m.persistent_exact.contains_key(r.domain) {
            0int
        } else {
            1int
        }),
        m.add_ephemeral(r).len() == m.len() + (if is_wildcard_pattern(r.domain) {
            if index_of_domain(m.ephemeral_wildcard, r.domain) is Some {
                0int
            } else {
                1int
            }
        } else if m.ephemeral_exact.contains_key(r.domain) {
            0int
        } else {
            1int
        }),
{
    lemma_without_domain(m.persistent_wildcard, r.domain);
    lemma_without_domain(m.ephemeral_wildcard, r.domain);
    if !is_wildcard_pattern(r.domain) {
        lemma_exact_insert(m.persistent_exact, r);
        lemma_exact_insert(m.ephemeral_exact, r);
    }
}

/// Removing never grows the store.
pub proof fn law_remove_len(m: StoreModel, d: Seq<char>)
    requires
        m.wf(),
    ensures
        m.remove(d).len() <= m.len(),
        m.remove_ephemeral(d).len() <= m.len(),
{
    lemma_exact_remove(m.persistent_exact, d);
    lemma_exact_remove(m.ephemeral_exact, d);
    if index_of_domain(m.persistent_wildcard, d) is Some {
        lemma_swap_remove_layer(m.persistent_wildcard, index_of_domain(m.persistent_wildcard, d)->0);
    }
    if index_of_domain(m.ephemeral_wildcard, d) is Some {
        lemma_swap_remove_layer(m.ephemeral_wildcard, index_of_domain(m.ephemeral_wildcard, d)->0);
    }
}

/// After `remove(d)` no persistent rule for `d` is left.
pub proof fn law_remove_leaves_no_rule(m: StoreModel, d: Seq<char>)
    requires
        m.wf(),
    ensures
        !m.remove(d).persistent_exact.contains_key(d),
        index_of_domain(m.remove(d).persistent_wildcard, d) is None,
        !m.remove_ephemeral(d).ephemeral_exact.contains_key(d),
        index_of_domain(m.remove_ephemeral(d).ephemeral_wildcard, d) is None,
{
    if index_of_domain(m.persistent_wildcard, d) is Some {
        let k = index_of_domain(m.persistent_wildcard, d)->0;
        lemma_swap_remove_layer(m.persistent_wildcard, k);
    }
    if index_of_domain(m.ephemeral_wildcard, d) is Some {
        let k = index_of_domain(m.ephemeral_wildcard, d)->0;
        lemma_swap_remove_layer(m.ephemeral_wildcard, k);
    }
}

/// Removing a persistent rule that was just added, for a domain that had
/// none, gives back the store as it was, and returns that rule.
pub proof fn law_remove_undoes_add(m: StoreModel, r: DnsRuleView)
    requires
        m.wf(),
        !m.persistent_exact.contains_key(r.domain),
        index_of_domain(m.persistent_wildcard, r.domain) is None,
    ensures
        m.add(r).remove(r.domain) == m,
        m.add(r).removed(r.domain) == Some(r),
{
    let a = m.add(r);
    if is_wildcard_pattern(r.domain) {
        let s = m.persistent_wildcard.push(r);
        assert(without_domain(m.persistent_wildcard, r.domain) == m.persistent_wildcard);
        assert(distinct_domains(s)) by {
            assert forall|x: int, y: int|
                0 <= x < s.len() && 0 <= y < s.len() && x != y implies #[trigger] s[x].domain
                != #[trigger] s[y].domain by {
                if x < s.len() - 1 && y < s.len() - 1 {
                    assert(s[x] == m.persistent_wildcard[x]);
                    assert(s[y] == m.persistent_wildcard[y]);
                } else if x < s.len() - 1 {
                    assert(s[x] == m.persistent_wildcard[x]);
                } else if y < s.len() - 1 {
                    assert(s[y] == m.persistent_wildcard[y]);
                }
            }
        }
        lemma_index_of_domain(s, r.domain, s.len() - 1);
        assert(swap_remove(s, s.len() - 1) =~= m.persistent_wildcard);
        assert(m.persistent_exact.remove(r.domain) =~= m.persistent_exact);
        assert(a.remove(r.domain) =~= m);
    } else {
        assert forall|i: int| 0 <= i < m.persistent_wildcard.len() implies #[trigger] m.persistent_wildcard[i].domain
            != r.domain by {
            assert(is_wildcard_pattern(m.persistent_wildcard[i].domain));
        }
        assert(m.persistent_exact.insert(r.domain, r).remove(r.domain) =~= m.persistent_exact);
        assert(a.remove(r.domain) =~= m);
    }
}

/// Removing an ephemeral rule that was just added, for a domain that had
/// none, gives back the store as it was, and returns that rule.
pub proof fn law_remove_ephemeral_undoes_add_ephemeral(m: StoreModel, r: DnsRuleView)
    requires
        m.wf(),
        !m.ephemeral_exact.contains_key(r.domain),
        index_of_domain(m.ephemeral_wildcard, r.domain) is None,
    ensures
        m.add_ephemeral(r).remove_ephemeral(r.domain) == m,
        m.add_ephemeral(r).removed_ephemeral(r.domain) == Some(r),
{
    let a = m.add_ephemeral(r);
    if is_wildcard_pattern(r.domain) {
        let s = m.ephemeral_wildcard.push(r);
        assert(without_domain(m.ephemeral_wildcard, r.domain) == m.ephemeral_wildcard);
        assert(distinct_domains(s)) by {
            assert forall|x: int, y: int|
                0 <= x < s.len() && 0 <= y < s.len() && x != y implies #[trigger] s[x].domain
                != #[trigger] s[y].domain by {
                if x < s.len() - 1 && y < s.len() - 1 {
                    assert(s[x] == m.ephemeral_wildcard[x]);
                    assert(s[y] == m.ephemeral_wildcard[y]);
                } else if x < s.len() - 1 {
                    assert(s[x] == m.ephemeral_wildcard[x]);
                } else if y < s.len() - 1 {
                    assert(s[y] == m.ephemeral_wildcard[y]);
                }
            }
        }
        lemma_index_of_domain(s, r.domain, s.len() - 1);
        assert(swap_remove(s, s.len() - 1) =~= m.ephemeral_wildcard);
        assert(m.ephemeral_exact.remove(r.domain) =~= m.ephemeral_exact);
        assert(a.remove_ephemeral(r.domain) =~= m);
    } else {
        assert forall|i: int| 0 <= i < m.ephemeral_wildcard.len() implies #[trigger] m.ephemeral_wildcard[i].domain
            != r.domain by {
            assert(is_wildcard_pattern(m.ephemeral_wildcard[i].domain));
        }
        assert(m.ephemeral_exact.insert(r.domain, r).remove(r.domain) =~= m.ephemeral_exact);
        assert(a.remove_ephemeral(r.domain) =~= m);
    }
}

/// Ephemeral operations never touch the persistent rules, and persistent
/// operations never touch the ephemeral rules.
pub proof fn law_layers_independent(m: StoreModel, r: DnsRuleView, d: Seq<char>)
    ensures
        m.add_ephemeral(r).persistent_exact == m.persistent_exact,
        m.add_ephemeral(r).persistent_wildcard == m.persistent_wildcard,
        m.remove_ephemeral(d).persistent_exact == m.persistent_exact,
        m.remove_ephemeral(d).persistent_wildcard == m.persistent_wildcard,
        m.add(r).ephemeral_exact == m.ephemeral_exact,
        m.add(r).ephemeral_wildcard == m.ephemeral_wildcard,
        m.remove(d).ephemeral_exact == m.ephemeral_exact,
        m.remove(d).ephemeral_wildcard == m.ephemeral_wildcard,
{
}

/// Adding a rule twice is the same as adding it once.
pub proof fn law_add_idempotent(m: StoreModel, r: DnsRuleView)
    requires
        m.wf(),
    ensures
        m.add(r).add(r) == m.add(r),
        m.add_ephemeral(r).add_ephemeral(r) == m.add_ephemeral(r),
{
    if is_wildcard_pattern(r.domain) {
        lemma_without_domain(m.persistent_wildcard, r.domain);
        lemma_without_domain(m.ephemeral_wildcard, r.domain);
        let w = without_domain(m.persistent_wildcard, r.domain);
        let s = w.push(r);
        assert(distinct_domains(s)) by {
            assert forall|x: int, y: int|
                0 <= x < s.len() && 0 <= y < s.len() && x != y implies #[trigger] s[x].domain
                != #[trigger] s[y].domain by {
                if x < s.len() - 1 {
                    assert(s[x] == w[x]);
                }
                if y < s.len() - 1 {
                    assert(s[y] == w[y]);
                }
            }
        }
        lemma_index_of_domain(s, r.domain, s.len() - 1);
        assert(s.remove(s.len() - 1) =~= w);
        let w2 = without_domain(m.ephemeral_wildcard, r.domain);
        let s2 = w2.push(r);
        assert(distinct_domains(s2)) by {
            assert forall|x: int, y: int|
                0 <= x < s2.len() && 0 <= y < s2.len() && x != y implies #[trigger] s2[x].domain
                != #[trigger] s2[y].domain by {
                if x < s2.len() - 1 {
                    assert(s2[x] == w2[x]);
                }
                if y < s2.len() - 1 {
                    assert(s2[y] == w2[y]);
                }
            }
        }
        lemma_index_of_domain(s2, r.domain, s2.len() - 1);
        assert(s2.remove(s2.len() - 1) =~= w2);
    } else {
        assert(m.persistent_exact.insert(r.domain, r).insert(r.domain, r) =~= m.persistent_exact.insert(
            r.domain,
            r,
        ));
        assert(m.ephemeral_exact.insert(r.domain, r).insert(r.domain, r) =~= m.ephemeral_exact.insert(
            r.domain,
            r,
        ));
    }
}


// ---------------------------------------------------------------------------
// Saving and loading the persistent rules
// ---------------------------------------------------------------------------

/// The exact rules of `s`, keyed by domain (a later rule for a domain
/// replacing an earlier one).
pub open spec fn exact_map_of(s: Seq<DnsRuleView>) -> Map<Seq<char>, DnsRuleView>
    decreases s.len(),
{
    if s.len() == 0 {
        Map::empty()
    } else {
        exact_map_of(s.drop_last()).insert(s.last().domain, s.last())
    }
}

/// Adding one list of rules after another is adding their concatenation.
proof fn lemma_add_all_concat(m: StoreModel, a: Seq<DnsRuleView>, b: Seq<DnsRuleView>)
    ensures
        m.add_all(a + b) == m.add_all(a).add_all(b),
    decreases b.len(),
{
    if b.len() == 0 {
        assert(a + b =~= a);
    } else {
        assert((a + b).drop_last() =~= a + b.drop_last());
        assert((a + b).last() == b.last());
        lemma_add_all_concat(m, a, b.drop_last());
    }
}

/// Adding exact rules to an empty store fills only the persistent exact
/// layer.
proof fn lemma_add_all_exact(s: Seq<DnsRuleView>)
    requires
        forall|i: int| 0 <= i < s.len() ==> !is_wildcard_pattern(#[trigger] s[i].domain),
    ensures
        StoreModel::empty().add_all(s) == (StoreModel {
            persistent_exact: exact_map_of(s),
            ..StoreModel::empty()
        }),
    decreases s.len(),
{
    if s.len() > 0 {
        assert(!is_wildcard_pattern(s[s.len() - 1].domain));
        assert forall|i: int| 0 <= i < s.drop_last().len() implies !is_wildcard_pattern(
            #[trigger] s.drop_last()[i].domain,
        ) by {
            assert(s.drop_last()[i] == s[i]);
        }
        lemma_add_all_exact(s.drop_last());
    }
}

/// Adding wildcard rules for distinct domains, to a store without
/// persistent wildcards, makes them its persistent wildcards, in order.
proof fn lemma_add_all_wildcards(m: StoreModel, s: Seq<DnsRuleView>)
    requires
        m.persistent_wildcard.len() == 0,
        wildcard_layer(s),
    ensures
        m.add_all(s) == (StoreModel { persistent_wildcard: s, ..m }),
    decreases s.len(),
{
    if s.len() > 0 {
        let rest = s.drop_last();
        assert forall|i: int| 0 <= i < rest.len() implies is_wildcard_pattern(
            #[trigger] rest[i].domain,
        ) by {
            assert(rest[i] == s[i]);
        }
        assert forall|i: int, j: int|
            0 <= i < rest.len() && 0 <= j < rest.len() && i != j implies #[trigger] rest[i].domain
            != #[trigger] rest[j].domain by {
            assert(rest[i] == s[i] && rest[j] == s[j]);
        }
        lemma_add_all_wildcards(m, rest);
        let last = s.last();
        assert(is_wildcard_pattern(s[s.len() - 1].domain));
        assert(!(exists|i: int| 0 <= i < rest.len() && rest[i].domain == last.domain)) by {
            if exists|i: int| 0 <= i < rest.len() && rest[i].domain == last.domain {
                let i = choose|i: int| 0 <= i < rest.len() && rest[i].domain == last.domain;
                assert(s[i].domain == s[s.len() - 1].domain);
            }
        }
        assert(without_domain(rest, last.domain) == rest);
        assert(rest.push(last) =~= s);
    } else {
        assert(m.persistent_wildcard =~= s);
    }
}

/// The exact rules of a list with distinct domains: one key per rule,
/// holding that rule.
proof fn lemma_exact_map_of(s: Seq<DnsRuleView>)
    requires
        distinct_domains(s),
    ensures
        exact_map_of(s).dom().finite(),
        exact_map_of(s).dom().len() == s.len(),
        forall|i: int|
            0 <= i < s.len() ==> exact_map_of(s).contains_key(#[trigger] s[i].domain)
                && exact_map_of(s)[s[i].domain] == s[i],
        forall|d: Seq<char>|
            #[trigger] exact_map_of(s).contains_key(d) ==> exists|i: int|
                0 <= i < s.len() && s[i].domain == d,
    decreases s.len(),
{
    if s.len() > 0 {
        let rest = s.drop_last();
        assert forall|i: int, j: int|
            0 <= i < rest.len() && 0 <= j < rest.len() && i != j implies #[trigger] rest[i].domain
            != #[trigger] rest[j].domain by {
            assert(rest[i] == s[i] && rest[j] == s[j]);
        }
        lemma_exact_map_of(rest);
        let last = s.last();
        let prev = exact_map_of(rest);
        if prev.contains_key(last.domain) {
            let i = choose|i: int| 0 <= i < rest.len() && rest[i].domain == last.domain;
            assert(s[i].domain == s[s.len() - 1].domain);
        }
        assert forall|i: int| 0 <= i < s.len() implies exact_map_of(s).contains_key(
            #[trigger] s[i].domain,
        ) && exact_map_of(s)[s[i].domain] == s[i] by {
            if i < s.len() - 1 {
                assert(s[i] == rest[i]);
                assert(s[i].domain != s[s.len() - 1].domain);
            }
        }
        assert forall|d: Seq<char>| #[trigger] exact_map_of(s).contains_key(d) implies exists|i: int|
            0 <= i < s.len() && s[i].domain == d by {
            if d == last.domain {
                assert(s[s.len() - 1].domain == d);
            } else {
                let i = choose|i: int| 0 <= i < rest.len() && rest[i].domain == d;
                assert(s[i] == rest[i]);
            }
        }
    }
}

/// Saving the persistent rules and loading them into a fresh store, as a
/// restart of the daemon does, gives back exactly the persistent rules;
/// the ephemeral rules are not kept.
pub proof fn law_restart_keeps_persistent_rules(m: StoreModel, saved: Seq<DnsRuleView>)
    requires
        m.wf(),
        m.lists_persistent(saved),
    ensures
        StoreModel::empty().add_all(saved) == (StoreModel {
            ephemeral_exact: Map::empty(),
            ephemeral_wildcard: Seq::empty(),
            ..m
        }),
{
    let k = m.persistent_exact.len() as int;
    let exact = saved.take(k);
    let wild = saved.skip(k);
    assert(saved =~= exact + wild);
    lemma_add_all_concat(StoreModel::empty(), exact, wild);
    assert forall|i: int| 0 <= i < exact.len() implies !is_wildcard_pattern(
        #[trigger] exact[i].domain,
    ) by {
        assert(m.persistent_exact.contains_key(exact[i].domain));
    }
    lemma_add_all_exact(exact);
    lemma_exact_map_of(exact);
    let built = exact_map_of(exact);
    assert(built.dom().subset_of(m.persistent_exact.dom())) by {
        assert forall|d: Seq<char>| built.dom().contains(d) implies m.persistent_exact.dom().contains(
            d,
        ) by {
            assert(built.contains_key(d));
            let i = choose|i: int| 0 <= i < exact.len() && exact[i].domain == d;
            assert(m.persistent_exact.contains_key(exact[i].domain));
        }
    }
    vstd::set_lib::lemma_subset_equality(built.dom(), m.persistent_exact.dom());
    assert(built =~= m.persistent_exact) by {
        assert forall|d: Seq<char>| #[trigger] built.contains_key(d) implies built[d]
            == m.persistent_exact[d] by {
            let i = choose|i: int| 0 <= i < exact.len() && exact[i].domain == d;
            assert(built[exact[i].domain] == exact[i]);
        }
    }
    let loaded = StoreModel { persistent_exact: built, ..StoreModel::empty() };
    lemma_add_all_wildcards(loaded, wild);
    assert((StoreModel { persistent_wildcard: wild, ..loaded }) =~= (StoreModel {
        ephemeral_exact: Map::empty(),
        ephemeral_wildcard: Seq::empty(),
        ..m
    }));
}

} // verus!
