//! The mathematical model of the rule store: two layers (ephemeral above
//! persistent), each made of exact rules keyed by domain and an ordered list
//! of wildcard rules.
use vstd::prelude::*;

use crate::rule::{is_wildcard_pattern, pattern_matches, DnsRuleView};

verus! {

/// No two rules in `s` are for the same domain.
pub open spec fn distinct_domains(s: Seq<DnsRuleView>) -> bool {
    forall|i: int, j: int|
        0 <= i < s.len() && 0 <= j < s.len() && i != j ==> #[trigger] s[i].domain
            != #[trigger] s[j].domain
}

/// A layer of exact rules: finitely many, each stored under its own domain,
/// none of them a wildcard.
pub open spec fn exact_layer(m: Map<Seq<char>, DnsRuleView>) -> bool {
    &&& m.dom().finite()
    &&& forall|d: Seq<char>| #[trigger]
        m.contains_key(d) ==> m[d].domain == d && !is_wildcard_pattern(d)
}

/// A list of wildcard rules, at most one per domain.
pub open spec fn wildcard_layer(s: Seq<DnsRuleView>) -> bool {
    &&& forall|i: int| 0 <= i < s.len() ==> is_wildcard_pattern(#[trigger] s[i].domain)
    &&& distinct_domains(s)
}

/// The position of the rule for domain `d` in `s`, if there is one.
pub open spec fn index_of_domain(s: Seq<DnsRuleView>, d: Seq<char>) -> Option<int> {
    if exists|i: int| 0 <= i < s.len() && s[i].domain == d {
        Some(choose|i: int| 0 <= i < s.len() && s[i].domain == d)
    } else {
        None
    }
}

/// `s` without the rule for domain `d` (unchanged when there is none).
pub open spec fn without_domain(s: Seq<DnsRuleView>, d: Seq<char>) -> Seq<DnsRuleView> {
    match index_of_domain(s, d) {
        Some(i) => s.remove(i),
        None => s,
    }
}

/// `s` with its element at `i` replaced by its last element, and the last
/// position dropped.
pub open spec fn swap_remove<A>(s: Seq<A>, i: int) -> Seq<A> {
    s.update(i, s.last()).drop_last()
}

/// `i` is the position of the first rule in `s` that applies to `d`.
pub open spec fn is_first_match(s: Seq<DnsRuleView>, d: Seq<char>, i: int) -> bool {
    &&& 0 <= i < s.len()
    &&& pattern_matches(s[i].domain, d)
    &&& forall|j: int| 0 <= j < i ==> !pattern_matches(#[trigger] s[j].domain, d)
}

/// The first rule in `s` that applies to `d`, if any.
pub open spec fn first_match(s: Seq<DnsRuleView>, d: Seq<char>) -> Option<DnsRuleView> {
    if exists|i: int| is_first_match(s, d, i) {
        Some(s[choose|i: int| is_first_match(s, d, i)])
    } else {
        None
    }
}

/// `s` lists the rules of `m`, each exactly once, in some order.
pub open spec fn lists_layer(s: Seq<DnsRuleView>, m: Map<Seq<char>, DnsRuleView>) -> bool {
    &&& s.len() == m.len()
    &&& distinct_domains(s)
    &&& forall|i: int|
        0 <= i < s.len() ==> m.contains_key(#[trigger] s[i].domain) && m[s[i].domain] == s[i]
}

/// The contents of a rule store.
pub struct StoreModel {
    pub ephemeral_exact: Map<Seq<char>, DnsRuleView>,
    pub ephemeral_wildcard: Seq<DnsRuleView>,
    pub persistent_exact: Map<Seq<char>, DnsRuleView>,
    pub persistent_wildcard: Seq<DnsRuleView>,
}

impl StoreModel {
    pub open spec fn empty() -> StoreModel {
        StoreModel {
            ephemeral_exact: Map::empty(),
            ephemeral_wildcard: Seq::empty(),
            persistent_exact: Map::empty(),
            persistent_wildcard: Seq::empty(),
        }
    }

    /// The number of rules, all layers together.
    pub open spec fn len(self) -> nat {
        self.ephemeral_exact.len() + self.ephemeral_wildcard.len() + self.persistent_exact.len()
            + self.persistent_wildcard.len()
    }

    pub open spec fn wf(self) -> bool {
        &&& exact_layer(self.ephemeral_exact)
        &&& wildcard_layer(self.ephemeral_wildcard)
        &&& exact_layer(self.persistent_exact)
        &&& wildcard_layer(self.persistent_wildcard)
        &&& self.len() <= usize::MAX
    }

    /// The rule that serves `d`: ephemeral before persistent, and within a
    /// layer the exact rule before the first wildcard that applies.
    pub open spec fn resolve(self, d: Seq<char>) -> Option<DnsRuleView> {
        if self.ephemeral_exact.contains_key(d) {
            Some(self.ephemeral_exact[d])
        } else if first_match(self.ephemeral_wildcard, d) is Some {
            first_match(self.ephemeral_wildcard, d)
        } else if self.persistent_exact.contains_key(d) {
            Some(self.persistent_exact[d])
        } else {
            first_match(self.persistent_wildcard, d)
        }
    }

    /// Adds `r` as a persistent rule, replacing the one for the same domain.
    /// A wildcard goes to the end of the persistent wildcard list.
    pub open spec fn add(self, r: DnsRuleView) -> StoreModel {
        if is_wildcard_pattern(r.domain) {
            StoreModel {
                persistent_wildcard: without_domain(self.persistent_wildcard, r.domain).push(r),
                ..self
            }
        } else {
            StoreModel { persistent_exact: self.persistent_exact.insert(r.domain, r), ..self }
        }
    }

    /// Adds `r` as an ephemeral rule, replacing the one for the same domain.
    pub open spec fn add_ephemeral(self, r: DnsRuleView) -> StoreModel {
        if is_wildcard_pattern(r.domain) {
            StoreModel {
                ephemeral_wildcard: without_domain(self.ephemeral_wildcard, r.domain).push(r),
                ..self
            }
        } else {
            StoreModel { ephemeral_exact: self.ephemeral_exact.insert(r.domain, r), ..self }
        }
    }

    /// Adds the rules of `rs` as persistent rules, in order.
    pub open spec fn add_all(self, rs: Seq<DnsRuleView>) -> StoreModel
        decreases rs.len(),
    {
        if rs.len() == 0 {
            self
        } else {
            self.add_all(rs.drop_last()).add(rs.last())
        }
    }

    /// Takes out the persistent rules for domain `d`; the last wildcard rule
    /// moves into the place of a removed one.
    pub open spec fn remove(self, d: Seq<char>) -> StoreModel {
        StoreModel {
            persistent_exact: self.persistent_exact.remove(d),
            persistent_wildcard: match index_of_domain(self.persistent_wildcard, d) {
                Some(i) => swap_remove(self.persistent_wildcard, i),
                None => self.persistent_wildcard,
            },
            ..self
        }
    }

    /// What `remove(d)` hands back: the wildcard rule for `d` if there is
    /// one, else the exact rule for `d`, if any.
    pub open spec fn removed(self, d: Seq<char>) -> Option<DnsRuleView> {
        match index_of_domain(self.persistent_wildcard, d) {
            Some(i) => Some(self.persistent_wildcard[i]),
            None => if self.persistent_exact.contains_key(d) {
                Some(self.persistent_exact[d])
            } else {
                None
            },
        }
    }

    /// Takes out the ephemeral rules for domain `d`.
    pub open spec fn remove_ephemeral(self, d: Seq<char>) -> StoreModel {
        StoreModel {
            ephemeral_exact: self.ephemeral_exact.remove(d),
            ephemeral_wildcard: match index_of_domain(self.ephemeral_wildcard, d) {
                Some(i) => swap_remove(self.ephemeral_wildcard, i),
                None => self.ephemeral_wildcard,
            },
            ..self
        }
    }

    /// What `remove_ephemeral(d)` hands back.
    pub open spec fn removed_ephemeral(self, d: Seq<char>) -> Option<DnsRuleView> {
        match index_of_domain(self.ephemeral_wildcard, d) {
            Some(i) => Some(self.ephemeral_wildcard[i]),
            None => if self.ephemeral_exact.contains_key(d) {
                Some(self.ephemeral_exact[d])
            } else {
                None
            },
        }
    }

    /// `s` lists the persistent rules: the exact ones, then the wildcards in
    /// order.
    pub open spec fn lists_persistent(self, s: Seq<DnsRuleView>) -> bool {
        let k = self.persistent_exact.len() as int;
        &&& s.len() == k + self.persistent_wildcard.len()
        &&& lists_layer(s.take(k), self.persistent_exact)
        &&& s.skip(k) == self.persistent_wildcard
    }

    /// `s` lists every rule: the ephemeral exact ones, the ephemeral
    /// wildcards in order, the persistent exact ones, the persistent
    /// wildcards in order.
    pub open spec fn lists_all(self, s: Seq<DnsRuleView>) -> bool {
        let a = self.ephemeral_exact.len() as int;
        let b = a + self.ephemeral_wildcard.len();
        let c = b + self.persistent_exact.len();
        &&& s.len() == self.len()
        &&& lists_layer(s.take(a), self.ephemeral_exact)
        &&& s.subrange(a, b) == self.ephemeral_wildcard
        &&& lists_layer(s.subrange(b, c), self.persistent_exact)
        &&& s.skip(c) == self.persistent_wildcard
    }
}

// ---------------------------------------------------------------------------
// Basic facts
// ---------------------------------------------------------------------------

/// In a list with distinct domains, the rule for `d` is the one at `i`.
pub proof fn lemma_index_of_domain(s: Seq<DnsRuleView>, d: Seq<char>, i: int)
    requires
        distinct_domains(s),
        0 <= i < s.len(),
        s[i].domain == d,
    ensures
        index_of_domain(s, d) == Some(i),
{
}

/// When some rule in `s` applies to `d`, there is a first one.
pub proof fn lemma_first_match_exists(s: Seq<DnsRuleView>, d: Seq<char>, i: int)
    requires
        0 <= i < s.len(),
        pattern_matches(s[i].domain, d),
    ensures
        exists|k: int| is_first_match(s, d, k),
        first_match(s, d) is Some,
    decreases i,
{
    if exists|j: int| 0 <= j < i && pattern_matches(s[j].domain, d) {
        let j = choose|j: int| 0 <= j < i && pattern_matches(s[j].domain, d);
        lemma_first_match_exists(s, d, j);
    } else {
        assert(is_first_match(s, d, i));
    }
}

/// The first rule that applies is the one at the first applying position.
pub proof fn lemma_first_match_at(s: Seq<DnsRuleView>, d: Seq<char>, i: int)
    requires
        is_first_match(s, d, i),
    ensures
        first_match(s, d) == Some(s[i]),
{
    let k = choose|k: int| is_first_match(s, d, k);
    if k < i {
        assert(!pattern_matches(s[k].domain, d));
    } else if i < k {
        assert(!pattern_matches(s[i].domain, d));
    }
}

/// No rule of `s` applies to `d` exactly when the first match is absent.
pub proof fn lemma_first_match_none(s: Seq<DnsRuleView>, d: Seq<char>)
    ensures
        first_match(s, d) is None <==> forall|i: int|
            0 <= i < s.len() ==> !pattern_matches(#[trigger] s[i].domain, d),
{
    if exists|i: int| 0 <= i < s.len() && pattern_matches(s[i].domain, d) {
        let i = choose|i: int| 0 <= i < s.len() && pattern_matches(s[i].domain, d);
        lemma_first_match_exists(s, d, i);
    }
}

/// The first match, when present, is an element of `s` that applies to `d`.
pub proof fn lemma_first_match_some(s: Seq<DnsRuleView>, d: Seq<char>)
    requires
        first_match(s, d) is Some,
    ensures
        exists|i: int|
            0 <= i < s.len() && s[i] == first_match(s, d)->0 && pattern_matches(s[i].domain, d),
{
    let k = choose|k: int| is_first_match(s, d, k);
    assert(s[k] == first_match(s, d)->0);
}

} // verus!
