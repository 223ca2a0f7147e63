//! The in-memory rule store.
//!
//! Resolution priority (first match wins):
//! 1. Ephemeral exact
//! 2. Ephemeral wildcard
//! 3. Persistent exact
//! 4. Persistent wildcard
use vstd::prelude::*;

use crate::rule::{is_wildcard_pattern, pattern_matches, DnsRule, DnsRuleView};
use crate::store_model::{
    distinct_domains, exact_layer, first_match, index_of_domain, is_first_match, lemma_first_match_at,
    lemma_first_match_none, lemma_index_of_domain, lists_layer, swap_remove, wildcard_layer,
    without_domain, StoreModel,
};
use crate::text::str_equals;

verus! {

/// The views of the rules in `s`.
pub open spec fn views(s: Seq<DnsRule>) -> Seq<DnsRuleView> {
    s.map_values(|r: DnsRule| r@)
}

pub open spec fn opt_view(o: Option<DnsRule>) -> Option<DnsRuleView> {
    match o {
        Some(r) => Some(r@),
        None => None,
    }
}

pub open spec fn opt_ref_view(o: Option<&DnsRule>) -> Option<DnsRuleView> {
    match o {
        Some(r) => Some(r@),
        None => None,
    }
}

/// Exact rules kept in a list: one per domain, none a wildcard.
pub open spec fn exact_list(s: Seq<DnsRuleView>) -> bool {
    &&& distinct_domains(s)
    &&& forall|i: int| 0 <= i < s.len() ==> !is_wildcard_pattern(#[trigger] s[i].domain)
}

/// The exact rules of a list, keyed by domain.
pub open spec fn to_map(s: Seq<DnsRuleView>) -> Map<Seq<char>, DnsRuleView>
    decreases s.len(),
{
    if s.len() == 0 {
        Map::empty()
    } else {
        to_map(s.drop_last()).insert(s.last().domain, s.last())
    }
}

pub proof fn lemma_to_map(s: Seq<DnsRuleView>)
    requires
        distinct_domains(s),
    ensures
        to_map(s).dom().finite(),
        to_map(s).len() == s.len(),
        forall|d: Seq<char>| #[trigger]
            to_map(s).contains_key(d) <==> exists|i: int| 0 <= i < s.len() && s[i].domain == d,
        forall|i: int|
            0 <= i < s.len() ==> to_map(s).contains_key(#[trigger] s[i].domain) && to_map(s)[s[i].domain]
                == s[i],
    decreases s.len(),
{
    if s.len() > 0 {
        let p = s.drop_last();
        assert(distinct_domains(p));
        lemma_to_map(p);
        assert forall|j: int| 0 <= j < p.len() implies p[j].domain != s.last().domain by {
            assert(s[j] == p[j]);
        }
        assert(!to_map(p).contains_key(s.last().domain));
        assert forall|d: Seq<char>| #[trigger]
            to_map(s).contains_key(d) <==> exists|i: int| 0 <= i < s.len() && s[i].domain == d by {
            if to_map(s).contains_key(d) && d != s.last().domain {
                let i = choose|i: int| 0 <= i < p.len() && p[i].domain == d;
                assert(s[i] == p[i]);
            }
            if exists|i: int| 0 <= i < s.len() && s[i].domain == d {
                let i = choose|i: int| 0 <= i < s.len() && s[i].domain == d;
                if i < s.len() - 1 {
                    assert(p[i] == s[i]);
                }
            }
        }
        assert forall|i: int| 0 <= i < s.len() implies to_map(s).contains_key(
            #[trigger] s[i].domain,
        ) && to_map(s)[s[i].domain] == s[i] by {
            if i < s.len() - 1 {
                assert(p[i] == s[i]);
            }
        }
    }
}

/// A list of exact rules, seen as a map, is an exact layer that it lists.
proof fn lemma_exact_list_layer(s: Seq<DnsRuleView>)
    requires
        exact_list(s),
    ensures
        exact_layer(to_map(s)),
        lists_layer(s, to_map(s)),
{
    lemma_to_map(s);
    assert forall|d: Seq<char>| #[trigger] to_map(s).contains_key(d) implies to_map(s)[d].domain
        == d && !is_wildcard_pattern(d) by {
        let i = choose|i: int| 0 <= i < s.len() && s[i].domain == d;
    }
}

/// The rules of the store, kept as four lists.
pub struct InnerRuleStore {
    ephemeral_exact: Vec<DnsRule>,
    persistent_exact: Vec<DnsRule>,
    ephemeral_wildcard: Vec<DnsRule>,
    persistent_wildcard: Vec<DnsRule>,
}

impl View for InnerRuleStore {
    type V = StoreModel;

    closed spec fn view(&self) -> StoreModel {
        StoreModel {
            ephemeral_exact: to_map(views(self.ephemeral_exact@)),
            ephemeral_wildcard: views(self.ephemeral_wildcard@),
            persistent_exact: to_map(views(self.persistent_exact@)),
            persistent_wildcard: views(self.persistent_wildcard@),
        }
    }
}

/// Copies of the rules of `v`.
fn copy_rules(v: &Vec<DnsRule>) -> (r: Vec<DnsRule>)
    ensures
        views(r@) == views(v@),
{
    let mut r: Vec<DnsRule> = Vec::new();
    let mut i: usize = 0;
    while i < v.len()
        invariant
            0 <= i <= v.len(),
            r@.len() == i,
            forall|j: int| 0 <= j < i ==> #[trigger] r@[j]@ == v@[j]@,
        decreases v.len() - i,
    {
        let c = v[i].clone();
        r.push(c);
        i = i + 1;
    }
    assert(views(r@) =~= views(v@));
    r
}

/// The position of the rule for `d` in `v`.
fn find_domain(v: &Vec<DnsRule>, d: &str) -> (r: Option<usize>)
    ensures
        match r {
            Some(i) => i < v.len() && views(v@)[i as int].domain == d@ && forall|j: int|
                0 <= j < i ==> views(v@)[j].domain != d@,
            None => forall|j: int| 0 <= j < v.len() ==> views(v@)[j].domain != d@,
        },
{
    let mut i: usize = 0;
    while i < v.len()
        invariant
            0 <= i <= v.len(),
            forall|j: int| 0 <= j < i ==> views(v@)[j].domain != d@,
        decreases v.len() - i,
    {
        if str_equals(v[i].domain.as_str(), d) {
            return Some(i);
        }
        i = i + 1;
    }
    None
}

/// The position of the first rule in `v` that applies to `d`.
fn find_first_match(v: &Vec<DnsRule>, d: &str) -> (r: Option<usize>)
    ensures
        match r {
            Some(i) => is_first_match(views(v@), d@, i as int),
            None => first_match(views(v@), d@) is None,
        },
{
    let mut i: usize = 0;
    while i < v.len()
        invariant
            0 <= i <= v.len(),
            forall|j: int| 0 <= j < i ==> !pattern_matches(#[trigger] views(v@)[j].domain, d@),
        decreases v.len() - i,
    {
        if v[i].matches(d) {
            return Some(i);
        }
        i = i + 1;
    }
    proof {
        lemma_first_match_none(views(v@), d@);
    }
    None
}

/// Puts `rule` in the exact list `v`, in place of the rule for its domain.
fn upsert_exact(v: &mut Vec<DnsRule>, rule: DnsRule)
    requires
        exact_list(views(old(v)@)),
        !is_wildcard_pattern(rule@.domain),
    ensures
        exact_list(views(final(v)@)),
        to_map(views(final(v)@)) == to_map(views(old(v)@)).insert(rule@.domain, rule@),
        final(v)@.len() <= old(v)@.len() + 1,
{
    let ghost old_s = views(v@);
    let ghost r = rule@;
    proof {
        lemma_to_map(old_s);
    }
    match find_domain(v, rule.domain.as_str()) {
        Some(i) => {
            v.set(i, rule);
            proof {
                let new_s = views(v@);
                assert(new_s =~= old_s.update(i as int, r));
                assert(exact_list(new_s));
                lemma_to_map(new_s);
                assert forall|d: Seq<char>| #[trigger]
                    to_map(new_s).contains_key(d) == to_map(old_s).insert(r.domain, r).contains_key(
                        d,
                    ) by {
                    if to_map(new_s).contains_key(d) {
                        let j = choose|j: int| 0 <= j < new_s.len() && new_s[j].domain == d;
                        if j != i {
                            assert(old_s[j] == new_s[j]);
                        }
                    }
                    if to_map(old_s).contains_key(d) && d != r.domain {
                        let j = choose|j: int| 0 <= j < old_s.len() && old_s[j].domain == d;
                        assert(new_s[j] == old_s[j]);
                    }
                    if d == r.domain {
                        assert(new_s[i as int].domain == d);
                    }
                }
                assert forall|d: Seq<char>| #[trigger]
                    to_map(new_s).contains_key(d) implies to_map(new_s)[d] == to_map(old_s).insert(
                    r.domain,
                    r,
                )[d] by {
                    let j = choose|j: int| 0 <= j < new_s.len() && new_s[j].domain == d;
                    if j != i {
                        assert(old_s[j] == new_s[j]);
                    }
                }
                assert(to_map(new_s) =~= to_map(old_s).insert(r.domain, r));
            }
        },
        None => {
            v.push(rule);
            proof {
                let new_s = views(v@);
                assert(new_s =~= old_s.push(r));
                assert(new_s.drop_last() =~= old_s);
                assert(exact_list(new_s));
            }
        },
    }
}

/// Takes the rule for `d` out of the exact list `v`.
fn take_exact(v: &mut Vec<DnsRule>, d: &str) -> (r: Option<DnsRule>)
    requires
        exact_list(views(old(v)@)),
    ensures
        exact_list(views(final(v)@)),
        to_map(views(final(v)@)) == to_map(views(old(v)@)).remove(d@),
        final(v)@.len() <= old(v)@.len(),
        opt_view(r) == (if to_map(views(old(v)@)).contains_key(d@) {
            Some(to_map(views(old(v)@))[d@])
        } else {
            None
        }),
{
    let ghost old_s = views(v@);
    proof {
        lemma_to_map(old_s);
    }
    match find_domain(v, d) {
        Some(i) => {
            let r = v.swap_remove(i);
            proof {
                let new_s = views(v@);
                assert(new_s =~= swap_remove(old_s, i as int));
                assert forall|a: int, b: int|
                    0 <= a < new_s.len() && 0 <= b < new_s.len() && a != b implies #[trigger] new_s[a].domain
                    != #[trigger] new_s[b].domain by {
                    let oa = if a == i { old_s.len() - 1 } else { a };
                    let ob = if b == i { old_s.len() - 1 } else { b };
                    assert(new_s[a] == old_s[oa]);
                    assert(new_s[b] == old_s[ob]);
                }
                assert forall|a: int| 0 <= a < new_s.len() implies !is_wildcard_pattern(
                    #[trigger] new_s[a].domain,
                ) by {
                    let oa = if a == i { old_s.len() - 1 } else { a };
                    assert(new_s[a] == old_s[oa]);
                }
                lemma_to_map(new_s);
                assert forall|k: Seq<char>| #[trigger]
                    to_map(new_s).contains_key(k) == to_map(old_s).remove(d@).contains_key(k) by {
                    if to_map(new_s).contains_key(k) {
                        let a = choose|a: int| 0 <= a < new_s.len() && new_s[a].domain == k;
                        let oa = if a == i { old_s.len() - 1 } else { a };
                        assert(new_s[a] == old_s[oa]);
                        assert(oa != i);
                    }
                    if to_map(old_s).contains_key(k) && k != d@ {
                        let a = choose|a: int| 0 <= a < old_s.len() && old_s[a].domain == k;
                        assert(a != i);
                        if a == old_s.len() - 1 {
                            assert(new_s[i as int] == old_s[a]);
                        } else {
                            assert(new_s[a] == old_s[a]);
                        }
                    }
                }
                assert forall|k: Seq<char>| #[trigger]
                    to_map(new_s).contains_key(k) implies to_map(new_s)[k] == to_map(old_s)[k] by {
                    let a = choose|a: int| 0 <= a < new_s.len() && new_s[a].domain == k;
                    let oa = if a == i { old_s.len() - 1 } else { a };
                    assert(new_s[a] == old_s[oa]);
                }
                assert(to_map(new_s) =~= to_map(old_s).remove(d@));
            }
            Some(r)
        },
        None => {
            proof {
                assert(to_map(old_s) =~= to_map(old_s).remove(d@));
            }
            None
        },
    }
}

/// Puts the wildcard `rule` at the end of `v`, after taking out the rule for
/// its domain.
fn upsert_wildcard(v: &mut Vec<DnsRule>, rule: DnsRule)
    requires
        wildcard_layer(views(old(v)@)),
        is_wildcard_pattern(rule@.domain),
    ensures
        wildcard_layer(views(final(v)@)),
        views(final(v)@) == without_domain(views(old(v)@), rule@.domain).push(rule@),
        final(v)@.len() <= old(v)@.len() + 1,
{
    let ghost old_s = views(v@);
    let ghost r = rule@;
    match find_domain(v, rule.domain.as_str()) {
        Some(i) => {
            proof {
                lemma_index_of_domain(old_s, r.domain, i as int);
            }
            let _ = v.remove(i);
            assert(views(v@) =~= old_s.remove(i as int));
        },
        None => {},
    }
    let ghost mid = views(v@);
    assert(mid == without_domain(old_s, r.domain));
    assert forall|a: int| 0 <= a < mid.len() implies mid[a].domain != r.domain
        && is_wildcard_pattern(#[trigger] mid[a].domain) by {
        if index_of_domain(old_s, r.domain) is Some {
            let i = index_of_domain(old_s, r.domain)->0;
            if a < i {
                assert(mid[a] == old_s[a]);
            } else {
                assert(mid[a] == old_s[a + 1]);
            }
        } else {
            assert(mid[a] == old_s[a]);
        }
    }
    assert forall|a: int, b: int|
        0 <= a < mid.len() && 0 <= b < mid.len() && a != b implies #[trigger] mid[a].domain
        != #[trigger] mid[b].domain by {
        if index_of_domain(old_s, r.domain) is Some {
            let i = index_of_domain(old_s, r.domain)->0;
            let oa = if a < i { a } else { a + 1 };
            let ob = if b < i { b } else { b + 1 };
            assert(mid[a] == old_s[oa]);
            assert(mid[b] == old_s[ob]);
        } else {
            assert(mid[a] == old_s[a]);
            assert(mid[b] == old_s[b]);
        }
    }
    v.push(rule);
    assert(views(v@) =~= mid.push(r));
}

/// Takes the rule for `d` out of the wildcard list `v`, moving the last rule
/// into its place.
fn take_wildcard(v: &mut Vec<DnsRule>, d: &str) -> (r: Option<DnsRule>)
    requires
        wildcard_layer(views(old(v)@)),
    ensures
        wildcard_layer(views(final(v)@)),
        final(v)@.len() <= old(v)@.len(),
        views(final(v)@) == match index_of_domain(views(old(v)@), d@) {
            Some(i) => swap_remove(views(old(v)@), i),
            None => views(old(v)@),
        },
        opt_view(r) == match index_of_domain(views(old(v)@), d@) {
            Some(i) => Some(views(old(v)@)[i]),
            None => None,
        },
{
    let ghost old_s = views(v@);
    match find_domain(v, d) {
        Some(i) => {
            proof {
                lemma_index_of_domain(old_s, d@, i as int);
            }
            let r = v.swap_remove(i);
            proof {
                let new_s = views(v@);
                assert(new_s =~= swap_remove(old_s, i as int));
                assert forall|a: int, b: int|
                    0 <= a < new_s.len() && 0 <= b < new_s.len() && a != b implies #[trigger] new_s[a].domain
                    != #[trigger] new_s[b].domain by {
                    let oa = if a == i { old_s.len() - 1 } else { a };
                    let ob = if b == i { old_s.len() - 1 } else { b };
                    assert(new_s[a] == old_s[oa]);
                    assert(new_s[b] == old_s[ob]);
                }
                assert forall|a: int| 0 <= a < new_s.len() implies is_wildcard_pattern(
                    #[trigger] new_s[a].domain,
                ) by {
                    let oa = if a == i { old_s.len() - 1 } else { a };
                    assert(new_s[a] == old_s[oa]);
                }
            }
            Some(r)
        },
        None => None,
    }
}

impl InnerRuleStore {
    #[verifier::type_invariant]
    spec fn inv(self) -> bool {
        &&& exact_list(views(self.ephemeral_exact@))
        &&& exact_list(views(self.persistent_exact@))
        &&& wildcard_layer(views(self.ephemeral_wildcard@))
        &&& wildcard_layer(views(self.persistent_wildcard@))
        &&& self.ephemeral_exact@.len() + self.ephemeral_wildcard@.len() + self.persistent_exact@.len()
            + self.persistent_wildcard@.len() <= usize::MAX
    }

    /// The model of a store whose lists are consistent is well formed, and
    /// counts what the lists hold.
    proof fn lemma_model(self)
        requires
            self.inv(),
        ensures
            self@.wf(),
            self@.ephemeral_exact.len() == self.ephemeral_exact@.len(),
            self@.persistent_exact.len() == self.persistent_exact@.len(),
            self@.ephemeral_wildcard.len() == self.ephemeral_wildcard@.len(),
            self@.persistent_wildcard.len() == self.persistent_wildcard@.len(),
            lists_layer(views(self.ephemeral_exact@), self@.ephemeral_exact),
            lists_layer(views(self.persistent_exact@), self@.persistent_exact),
    {
        lemma_exact_list_layer(views(self.ephemeral_exact@));
        lemma_exact_list_layer(views(self.persistent_exact@));
        lemma_to_map(views(self.ephemeral_exact@));
        lemma_to_map(views(self.persistent_exact@));
    }

    /// The model of the store, which is always well formed.
    pub fn model_is_wf(&self)
        ensures
            self@.wf(),
    {
        proof {
            use_type_invariant(self);
            self.lemma_model();
        }
    }

    /// An empty store.
    pub fn new() -> (r: InnerRuleStore)
        ensures
            r@ == StoreModel::empty(),
    {
        let r = InnerRuleStore {
            ephemeral_exact: Vec::new(),
            persistent_exact: Vec::new(),
            ephemeral_wildcard: Vec::new(),
            persistent_wildcard: Vec::new(),
        };
        proof {
            assert(views(r.ephemeral_exact@) =~= Seq::<DnsRuleView>::empty());
            assert(views(r.persistent_exact@) =~= Seq::<DnsRuleView>::empty());
            assert(views(r.ephemeral_wildcard@) =~= Seq::<DnsRuleView>::empty());
            assert(views(r.persistent_wildcard@) =~= Seq::<DnsRuleView>::empty());
            assert(r@.ephemeral_exact =~= Map::<Seq<char>, DnsRuleView>::empty());
            assert(r@.persistent_exact =~= Map::<Seq<char>, DnsRuleView>::empty());
        }
        r
    }

    /// The rule that serves `domain`: ephemeral before persistent, exact
    /// before wildcard, and among wildcards the first that applies.
    pub fn resolve(&self, domain: &str) -> (r: Option<&DnsRule>)
        ensures
            opt_ref_view(r) == self@.resolve(domain@),
    {
        proof {
            use_type_invariant(self);
            lemma_to_map(views(self.ephemeral_exact@));
            lemma_to_map(views(self.persistent_exact@));
        }
        if let Some(i) = find_domain(&self.ephemeral_exact, domain) {
            return Some(&self.ephemeral_exact[i]);
        }
        if let Some(i) = find_first_match(&self.ephemeral_wildcard, domain) {
            proof {
                lemma_first_match_at(views(self.ephemeral_wildcard@), domain@, i as int);
            }
            return Some(&self.ephemeral_wildcard[i]);
        }
        if let Some(i) = find_domain(&self.persistent_exact, domain) {
            return Some(&self.persistent_exact[i]);
        }
        if let Some(i) = find_first_match(&self.persistent_wildcard, domain) {
            proof {
                lemma_first_match_at(views(self.persistent_wildcard@), domain@, i as int);
            }
            return Some(&self.persistent_wildcard[i]);
        }
        None
    }

    /// Adds or replaces a persistent rule.
    pub fn add(&mut self, rule: DnsRule)
        requires
            old(self)@.len() < usize::MAX,
        ensures
            final(self)@ == old(self)@.add(rule@),
            final(self)@.len() <= old(self)@.len() + 1,
    {
        let mut taken = InnerRuleStore::new();
        core::mem::swap(self, &mut taken);
        proof {
            use_type_invariant(&taken);
            taken.lemma_model();
        }
        let ghost before = taken@;
        let InnerRuleStore {
            ephemeral_exact,
            mut persistent_exact,
            ephemeral_wildcard,
            mut persistent_wildcard,
        } = taken;
        if rule.is_wildcard() {
            upsert_wildcard(&mut persistent_wildcard, rule);
        } else {
            upsert_exact(&mut persistent_exact, rule);
        }
        let next = InnerRuleStore {
            ephemeral_exact,
            persistent_exact,
            ephemeral_wildcard,
            persistent_wildcard,
        };
        proof {
            next.lemma_model();
            assert(next@ =~= before.add(rule@));
        }
        *self = next;
    }

    /// Adds or replaces an ephemeral rule.
    pub fn add_ephemeral(&mut self, rule: DnsRule)
        requires
            old(self)@.len() < usize::MAX,
        ensures
            final(self)@ == old(self)@.add_ephemeral(rule@),
            final(self)@.len() <= old(self)@.len() + 1,
    {
        let mut taken = InnerRuleStore::new();
        core::mem::swap(self, &mut taken);
        proof {
            use_type_invariant(&taken);
            taken.lemma_model();
        }
        let ghost before = taken@;
        let InnerRuleStore {
            mut ephemeral_exact,
            persistent_exact,
            mut ephemeral_wildcard,
            persistent_wildcard,
        } = taken;
        if rule.is_wildcard() {
            upsert_wildcard(&mut ephemeral_wildcard, rule);
        } else {
            upsert_exact(&mut ephemeral_exact, rule);
        }
        let next = InnerRuleStore {
            ephemeral_exact,
            persistent_exact,
            ephemeral_wildcard,
            persistent_wildcard,
        };
        proof {
            next.lemma_model();
            assert(next@ =~= before.add_ephemeral(rule@));
        }
        *self = next;
    }

    /// Adds or replaces persistent rules, in order.
    pub fn add_all(&mut self, rules: Vec<DnsRule>)
        requires
            old(self)@.len() + rules.len() <= usize::MAX,
        ensures
            final(self)@ == old(self)@.add_all(views(rules@)),
    {
        let ghost start = self@;
        let mut i: usize = 0;
        while i < rules.len()
            invariant
                0 <= i <= rules.len(),
                start.len() + rules.len() <= usize::MAX,
                self@ == start.add_all(views(rules@).take(i as int)),
                self@.len() <= start.len() + i,
            decreases rules.len() - i,
        {
            self.add(rules[i].clone());
            proof {
                let t = views(rules@).take(i + 1);
                assert(t.drop_last() =~= views(rules@).take(i as int));
                assert(t.last() == rules@[i as int]@);
            }
            i = i + 1;
        }
        proof {
            assert(views(rules@).take(rules.len() as int) =~= views(rules@));
        }
    }

    /// Takes out the persistent rule for `domain` and returns it.
    pub fn remove(&mut self, domain: &str) -> (r: Option<DnsRule>)
        ensures
            final(self)@ == old(self)@.remove(domain@),
            opt_view(r) == old(self)@.removed(domain@),
    {
        let mut taken = InnerRuleStore::new();
        core::mem::swap(self, &mut taken);
        proof {
            use_type_invariant(&taken);
            taken.lemma_model();
        }
        let ghost before = taken@;
        let InnerRuleStore {
            ephemeral_exact,
            mut persistent_exact,
            ephemeral_wildcard,
            mut persistent_wildcard,
        } = taken;
        let exact = take_exact(&mut persistent_exact, domain);
        let wildcard = take_wildcard(&mut persistent_wildcard, domain);
        let next = InnerRuleStore {
            ephemeral_exact,
            persistent_exact,
            ephemeral_wildcard,
            persistent_wildcard,
        };
        proof {
            next.lemma_model();
            assert(next@ =~= before.remove(domain@));
        }
        *self = next;
        match wildcard {
            Some(w) => Some(w),
            None => exact,
        }
    }

    /// Takes out the ephemeral rule for `domain` and returns it.
    pub fn remove_ephemeral(&mut self, domain: &str) -> (r: Option<DnsRule>)
        ensures
            final(self)@ == old(self)@.remove_ephemeral(domain@),
            opt_view(r) == old(self)@.removed_ephemeral(domain@),
    {
        let mut taken = InnerRuleStore::new();
        core::mem::swap(self, &mut taken);
        proof {
            use_type_invariant(&taken);
            taken.lemma_model();
        }
        let ghost before = taken@;
        let InnerRuleStore {
            mut ephemeral_exact,
            persistent_exact,
            mut ephemeral_wildcard,
            persistent_wildcard,
        } = taken;
        let exact = take_exact(&mut ephemeral_exact, domain);
        let wildcard = take_wildcard(&mut ephemeral_wildcard, domain);
        let next = InnerRuleStore {
            ephemeral_exact,
            persistent_exact,
            ephemeral_wildcard,
            persistent_wildcard,
        };
        proof {
            next.lemma_model();
            assert(next@ =~= before.remove_ephemeral(domain@));
        }
        *self = next;
        match wildcard {
            Some(w) => Some(w),
            None => exact,
        }
    }

    /// Copies of the persistent rules: the exact ones, then the wildcards.
    pub fn persistent_rules(&self) -> (r: Vec<DnsRule>)
        ensures
            self@.lists_persistent(views(r@)),
    {
        proof {
            use_type_invariant(self);
            self.lemma_model();
        }
        let mut r = copy_rules(&self.persistent_exact);
        let mut w = copy_rules(&self.persistent_wildcard);
        let ghost a = r@;
        let ghost b = w@;
        r.append(&mut w);
        proof {
            assert(r@ == a + b);
            assert(views(r@) =~= views(a) + views(b));
            assert(views(r@).take(a.len() as int) =~= views(a));
            assert(views(r@).skip(a.len() as int) =~= views(b));
        }
        r
    }

    /// Copies of all rules: ephemeral exact, ephemeral wildcard, persistent
    /// exact, persistent wildcard.
    pub fn all_rules(&self) -> (r: Vec<DnsRule>)
        ensures
            self@.lists_all(views(r@)),
    {
        proof {
            use_type_invariant(self);
            self.lemma_model();
        }
        let mut r = copy_rules(&self.ephemeral_exact);
        let mut w1 = copy_rules(&self.ephemeral_wildcard);
        let mut e2 = copy_rules(&self.persistent_exact);
        let mut w2 = copy_rules(&self.persistent_wildcard);
        let ghost (a, b, c, d) = (views(r@), views(w1@), views(e2@), views(w2@));
        r.append(&mut w1);
        r.append(&mut e2);
        r.append(&mut w2);
        proof {
            let all = views(r@);
            assert(all =~= a + b + c + d);
            let ia = a.len() as int;
            let ib = ia + b.len();
            let ic = ib + c.len();
            assert(all.take(ia) =~= a);
            assert(all.subrange(ia, ib) =~= b);
            assert(all.subrange(ib, ic) =~= c);
            assert(all.skip(ic) =~= d);
        }
        r
    }

    /// The number of rules, all layers together.
    pub fn len(&self) -> (r: usize)
        ensures
            r == self@.len(),
    {
        proof {
            use_type_invariant(self);
            self.lemma_model();
        }
        self.ephemeral_exact.len() + self.ephemeral_wildcard.len() + self.persistent_exact.len()
            + self.persistent_wildcard.len()
    }

    pub fn is_empty(&self) -> (r: bool)
        ensures
            r == (self@.len() == 0),
    {
        self.len() == 0
    }
}

impl Clone for InnerRuleStore {
    fn clone(&self) -> (r: Self)
        ensures
            r@ == self@,
    {
        proof {
            use_type_invariant(self);
        }
        InnerRuleStore {
            ephemeral_exact: copy_rules(&self.ephemeral_exact),
            persistent_exact: copy_rules(&self.persistent_exact),
            ephemeral_wildcard: copy_rules(&self.ephemeral_wildcard),
            persistent_wildcard: copy_rules(&self.persistent_wildcard),
        }
    }
}

impl Default for InnerRuleStore {
    fn default() -> (r: Self)
        ensures
            r@ == StoreModel::empty(),
    {
        InnerRuleStore::new()
    }
}

} // verus!
