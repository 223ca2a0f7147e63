//! The daemon's keeper of the system DNS configuration: it reverts first
//! (cleaning up after a crash), applies the configuration for the current
//! domains, applies it again whenever a rule is added or removed, and
//! reverts when the daemon stops or the event stream closes. An apply that
//! fails ends it with that error. The keeper decides; the caller carries
//! out each action and reports what came of it.
use vstd::prelude::*;

use crate::ipc::DnsEvent;

verus! {

/// Where the keeper stands.
#[derive(Clone, Copy, Debug, PartialEq, Eq, Structural)]
pub enum ManagerState {
    /// Nothing done yet.
    Start,
    /// Reverting what an earlier run may have left.
    CleaningUp,
    /// Applying the configuration for the current domains.
    Applying,
    /// Waiting for rule events.
    Watching,
    /// Reverting before the end.
    Restoring,
    /// Over.
    Done,
}

/// What the caller reports.
pub enum ManagerEvent {
    /// The keeper begins.
    Begin,
    /// A revert was carried out (a failed one is only reported to the user).
    Reverted,
    /// An apply was carried out; whether it succeeded.
    Applied(bool),
    /// This event came from the daemon.
    Received(DnsEvent),
    /// Events were missed because the keeper fell behind.
    Lagged,
    /// The daemon asked every task to stop.
    Cancelled,
    /// The event stream closed.
    Closed,
}

/// What the caller does next.
#[derive(Clone, Copy, Debug, PartialEq, Eq, Structural)]
pub enum ManagerAction {
    /// Carry out the revert plan.
    Revert,
    /// Carry out the apply plan for the current domains.
    Apply,
    /// Wait for the next event, or for the daemon to stop.
    Wait,
    /// End with the error of the failed apply.
    Fail,
    /// End normally.
    Finish,
    /// The report does not fit where the keeper stands: nothing to do.
    Ignore,
}

/// One step of the keeper: where it goes from `s` on event `e`, and what
/// the caller does.
pub open spec fn manager_step_spec(
    s: ManagerState,
    e: ManagerEvent,
    next: ManagerState,
    a: ManagerAction,
) -> bool {
    match (s, e) {
        (ManagerState::Start, ManagerEvent::Begin) => a == ManagerAction::Revert && next
            == ManagerState::CleaningUp,
        (ManagerState::CleaningUp, ManagerEvent::Reverted) => a == ManagerAction::Apply && next
            == ManagerState::Applying,
        (ManagerState::Applying, ManagerEvent::Applied(ok)) => if ok {
            a == ManagerAction::Wait && next == ManagerState::Watching
        } else {
            a == ManagerAction::Fail && next == ManagerState::Done
        },
        (ManagerState::Watching, ManagerEvent::Received(ev)) => if ev is DaemonStopped {
            a == ManagerAction::Wait && next == ManagerState::Watching
        } else {
            a == ManagerAction::Apply && next == ManagerState::Applying
        },
        (ManagerState::Watching, ManagerEvent::Lagged) => a == ManagerAction::Wait && next
            == ManagerState::Watching,
        (ManagerState::Watching, ManagerEvent::Cancelled) => a == ManagerAction::Revert && next
            == ManagerState::Restoring,
        (ManagerState::Watching, ManagerEvent::Closed) => a == ManagerAction::Revert && next
            == ManagerState::Restoring,
        (ManagerState::Restoring, ManagerEvent::Reverted) => a == ManagerAction::Finish && next
            == ManagerState::Done,
        _ => a == ManagerAction::Ignore && next == s,
    }
}

/// One step of the keeper.
pub fn manager_step(state: ManagerState, event: ManagerEvent) -> (r: (ManagerState, ManagerAction))
    ensures
        manager_step_spec(state, event, r.0, r.1),
{
    match (state, event) {
        (ManagerState::Start, ManagerEvent::Begin) => (
            ManagerState::CleaningUp,
            ManagerAction::Revert,
        ),
        (ManagerState::CleaningUp, ManagerEvent::Reverted) => (
            ManagerState::Applying,
            ManagerAction::Apply,
        ),
        (ManagerState::Applying, ManagerEvent::Applied(ok)) => if ok {
            (ManagerState::Watching, ManagerAction::Wait)
        } else {
            (ManagerState::Done, ManagerAction::Fail)
        },
        (ManagerState::Watching, ManagerEvent::Received(ev)) => if ev.changes_rules() {
            (ManagerState::Applying, ManagerAction::Apply)
        } else {
            (ManagerState::Watching, ManagerAction::Wait)
        },
        (ManagerState::Watching, ManagerEvent::Lagged) => (
            ManagerState::Watching,
            ManagerAction::Wait,
        ),
        (ManagerState::Watching, ManagerEvent::Cancelled) => (
            ManagerState::Restoring,
            ManagerAction::Revert,
        ),
        (ManagerState::Watching, ManagerEvent::Closed) => (
            ManagerState::Restoring,
            ManagerAction::Revert,
        ),
        (ManagerState::Restoring, ManagerEvent::Reverted) => (
            ManagerState::Done,
            ManagerAction::Finish,
        ),
        _ => (state, ManagerAction::Ignore),
    }
}

/// The keeper ends normally only right after reverting: the system is left
/// without the daemon's configuration.
pub proof fn law_manager_finishes_after_revert(
    s: ManagerState,
    e: ManagerEvent,
    next: ManagerState,
)
    requires
        manager_step_spec(s, e, next, ManagerAction::Finish),
    ensures
        s == ManagerState::Restoring,
        e is Reverted,
{
}

/// When the daemon stops or the event stream closes, the keeper reverts.
pub proof fn law_manager_reverts_on_stop(e: ManagerEvent, next: ManagerState, a: ManagerAction)
    requires
        manager_step_spec(ManagerState::Watching, e, next, a),
        e is Cancelled || e is Closed,
    ensures
        a == ManagerAction::Revert,
        next == ManagerState::Restoring,
{
}

/// Every rule added or removed has the configuration applied again.
pub proof fn law_manager_reapplies_on_rule_change(
    ev: DnsEvent,
    next: ManagerState,
    a: ManagerAction,
)
    requires
        manager_step_spec(ManagerState::Watching, ManagerEvent::Received(ev), next, a),
        !(ev is DaemonStopped),
    ensures
        a == ManagerAction::Apply,
{
}

} // verus!
