//! The rule store shared between the daemon's tasks.
//!
//! Reads take a snapshot of the current store without locking. Writers copy
//! the current store, apply the change and swap the copy in atomically
//! (read-copy-update). Clones of a `RuleStore` share the same rules.
//!
//! Because other clones may write at any time, what a call sees is some
//! well-formed snapshot of the store; the contracts below say what holds of
//! the result for that snapshot.
use std::sync::Arc;

use arc_swap::ArcSwap;
use vstd::prelude::*;

use crate::rule::{pattern_matches, DnsRule};
use crate::store::{opt_view, views, InnerRuleStore};
use crate::store_laws::law_resolve_sound;
use crate::store_model::StoreModel;

verus! {

/// The shared cell that holds the current store. `arc_swap` keeps its
/// default strategy type private, so the cell is held opaquely here.
#[verifier::external_body]
struct SwapCell {
    cell: Arc<ArcSwap<InnerRuleStore>>,
}

/// `ArcSwap::from_pointee`: a cell holding `store`.
#[verifier::external_body]
fn swap_cell_new(store: InnerRuleStore) -> SwapCell {
    SwapCell { cell: Arc::new(ArcSwap::from_pointee(store)) }
}

/// `Arc::clone` of the cell: both handles share the same store.
#[verifier::external_body]
fn swap_cell_share(c: &SwapCell) -> SwapCell {
    SwapCell { cell: Arc::clone(&c.cell) }
}

/// `ArcSwapAny::load_full`: the store held at the time of the call. Other
/// handles may swap in a new store at any time, so nothing is promised of
/// which one it is.
#[verifier::external_body]
fn swap_cell_load(c: &SwapCell) -> Arc<InnerRuleStore> {
    c.cell.load_full()
}

/// `ArcSwapAny::rcu`: applies `f` to the current store and swaps the result
/// in, retrying with the newer store when another writer got in between.
/// Returns the store that `f` was last applied to (the one replaced). Which
/// store that is depends on the other writers, so nothing more is stated.
#[verifier::external_body]
fn swap_cell_rcu<F: Fn(&InnerRuleStore) -> InnerRuleStore>(c: &SwapCell, f: F) -> Arc<
    InnerRuleStore,
>
    requires
        forall|s: &InnerRuleStore| f.requires((s,)),
{
    c.cell.rcu(|cur: &Arc<InnerRuleStore>| f(&**cur))
}

/// Concurrent, lock-free access to an [`InnerRuleStore`].
pub struct RuleStore {
    inner: SwapCell,
}

impl RuleStore {
    /// An empty store.
    pub fn new() -> RuleStore {
        RuleStore { inner: swap_cell_new(InnerRuleStore::new()) }
    }

    /// The rule that serves `domain` in the current snapshot.
    pub fn resolve(&self, domain: &str) -> (r: Option<DnsRule>)
        ensures
            exists|m: StoreModel| m.wf() && opt_view(r) == m.resolve(domain@),
            r matches Some(rule) ==> pattern_matches(rule@.domain, domain@),
    {
        let snap = swap_cell_load(&self.inner);
        snap.model_is_wf();
        let r = match snap.resolve(domain) {
            Some(rule) => Some(rule.clone()),
            None => None,
        };
        proof {
            if r is Some {
                law_resolve_sound(snap@, domain@);
            }
        }
        r
    }

    /// Adds or replaces a persistent rule; returns the rule.
    pub fn add(&self, rule: DnsRule) -> (r: DnsRule)
        ensures
            r@ == rule@,
    {
        let f = |cur: &InnerRuleStore| -> (next: InnerRuleStore)
            ensures
                next@ == (if cur@.len() < usize::MAX {
                    cur@.add(rule@)
                } else {
                    cur@
                }),
            {
                let mut next = cur.clone();
                if next.len() < usize::MAX {
                    next.add(rule.clone());
                }
                next
            };
        let _ = swap_cell_rcu(&self.inner, f);
        rule
    }

    /// Adds or replaces persistent rules, in order; returns how many were
    /// given.
    pub fn add_all(&self, rules: Vec<DnsRule>) -> (n: usize)
        ensures
            n == rules.len(),
    {
        let f = |cur: &InnerRuleStore| -> (next: InnerRuleStore)
            ensures
                next@ == (if cur@.len() + rules.len() <= usize::MAX {
                    cur@.add_all(views(rules@))
                } else {
                    cur@
                }),
            {
                let mut next = cur.clone();
                let n = next.len();
                if n <= usize::MAX - rules.len() {
                    next.add_all(copy_all(&rules));
                }
                next
            };
        let _ = swap_cell_rcu(&self.inner, f);
        rules.len()
    }

    /// Adds or replaces an ephemeral rule; returns the rule.
    pub fn add_ephemeral(&self, rule: DnsRule) -> (r: DnsRule)
        ensures
            r@ == rule@,
    {
        let f = |cur: &InnerRuleStore| -> (next: InnerRuleStore)
            ensures
                next@ == (if cur@.len() < usize::MAX {
                    cur@.add_ephemeral(rule@)
                } else {
                    cur@
                }),
            {
                let mut next = cur.clone();
                if next.len() < usize::MAX {
                    next.add_ephemeral(rule.clone());
                }
                next
            };
        let _ = swap_cell_rcu(&self.inner, f);
        rule
    }

    /// Removes the persistent rule for `domain`; returns the rule removed
    /// from the store that the removal was applied to.
    pub fn remove(&self, domain: &str) -> (r: Option<DnsRule>)
        ensures
            exists|m: StoreModel| m.wf() && opt_view(r) == m.removed(domain@),
    {
        let f = |cur: &InnerRuleStore| -> (next: InnerRuleStore)
            ensures
                next@ == cur@.remove(domain@),
            {
                let mut next = cur.clone();
                let _ = next.remove(domain);
                next
            };
        let prev = swap_cell_rcu(&self.inner, f);
        prev.model_is_wf();
        let mut copy = (*prev).clone();
        copy.remove(domain)
    }

    /// Removes the ephemeral rule for `domain`; returns the rule removed
    /// from the store that the removal was applied to.
    pub fn remove_ephemeral(&self, domain: &str) -> (r: Option<DnsRule>)
        ensures
            exists|m: StoreModel| m.wf() && opt_view(r) == m.removed_ephemeral(domain@),
    {
        let f = |cur: &InnerRuleStore| -> (next: InnerRuleStore)
            ensures
                next@ == cur@.remove_ephemeral(domain@),
            {
                let mut next = cur.clone();
                let _ = next.remove_ephemeral(domain);
                next
            };
        let prev = swap_cell_rcu(&self.inner, f);
        prev.model_is_wf();
        let mut copy = (*prev).clone();
        copy.remove_ephemeral(domain)
    }

    /// The persistent rules of the current snapshot.
    pub fn snapshot_persistent(&self) -> (r: Vec<DnsRule>)
        ensures
            exists|m: StoreModel| m.wf() && m.lists_persistent(views(r@)),
    {
        let snap = swap_cell_load(&self.inner);
        snap.model_is_wf();
        snap.persistent_rules()
    }

    /// All rules of the current snapshot.
    pub fn snapshot_all(&self) -> (r: Vec<DnsRule>)
        ensures
            exists|m: StoreModel| m.wf() && m.lists_all(views(r@)),
    {
        let snap = swap_cell_load(&self.inner);
        snap.model_is_wf();
        snap.all_rules()
    }

    /// The number of rules in the current snapshot.
    pub fn len(&self) -> (r: usize)
        ensures
            exists|m: StoreModel| m.wf() && r == m.len(),
    {
        let snap = swap_cell_load(&self.inner);
        snap.model_is_wf();
        snap.len()
    }

    /// Whether the current snapshot holds no rule.
    pub fn is_empty(&self) -> (r: bool)
        ensures
            exists|m: StoreModel| m.wf() && r == (m.len() == 0),
    {
        let snap = swap_cell_load(&self.inner);
        snap.model_is_wf();
        snap.is_empty()
    }
}

/// Copies of the rules of `v`.
fn copy_all(v: &Vec<DnsRule>) -> (r: Vec<DnsRule>)
    ensures
        r.len() == v.len(),
        views(r@) == views(v@),
{
    let mut r: Vec<DnsRule> = Vec::new();
    let mut i: usize = 0;
    while i < v.len()
        invariant
            0 <= i <= v.len(),
            r@.len() == i,
            forall|j: int| 0 <= j < i ==> #[trigger] r@[j]@ == v@[j]@,
        decreases v.len() - i,
    {
        r.push(v[i].clone());
        i = i + 1;
    }
    assert(views(r@) =~= views(v@));
    r
}

impl Clone for RuleStore {
    /// Another handle on the same rules.
    fn clone(&self) -> Self {
        RuleStore { inner: swap_cell_share(&self.inner) }
    }
}

impl Default for RuleStore {
    fn default() -> Self {
        RuleStore::new()
    }
}

} // verus!
