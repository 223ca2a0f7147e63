use sidedns_core::dns_manager::{manager_step, ManagerAction, ManagerEvent, ManagerState};
use sidedns_core::{DnsEvent, DnsRule, IpAddress, SocketTarget};

fn rule() -> DnsRule {
    DnsRule::new("api.local".into(), SocketTarget::new(IpAddress::V4([127, 0, 0, 1]), 3000), false)
}

#[test]
fn keeper_reverts_first_then_applies_and_reapplies() {
    assert_eq!(manager_step(ManagerState::Start, ManagerEvent::Begin), (ManagerState::CleaningUp, ManagerAction::Revert));
    assert_eq!(manager_step(ManagerState::CleaningUp, ManagerEvent::Reverted), (ManagerState::Applying, ManagerAction::Apply));
    assert_eq!(manager_step(ManagerState::Applying, ManagerEvent::Applied(true)), (ManagerState::Watching, ManagerAction::Wait));
    assert_eq!(
        manager_step(ManagerState::Watching, ManagerEvent::Received(DnsEvent::EphemeralAdded(rule()))),
        (ManagerState::Applying, ManagerAction::Apply)
    );
    assert_eq!(
        manager_step(ManagerState::Watching, ManagerEvent::Received(DnsEvent::DaemonStopped)),
        (ManagerState::Watching, ManagerAction::Wait)
    );
    assert_eq!(manager_step(ManagerState::Watching, ManagerEvent::Lagged), (ManagerState::Watching, ManagerAction::Wait));
}

#[test]
fn keeper_reverts_on_stop_and_fails_on_apply_error() {
    assert_eq!(manager_step(ManagerState::Watching, ManagerEvent::Cancelled), (ManagerState::Restoring, ManagerAction::Revert));
    assert_eq!(manager_step(ManagerState::Watching, ManagerEvent::Closed), (ManagerState::Restoring, ManagerAction::Revert));
    assert_eq!(manager_step(ManagerState::Restoring, ManagerEvent::Reverted), (ManagerState::Done, ManagerAction::Finish));
    assert_eq!(manager_step(ManagerState::Applying, ManagerEvent::Applied(false)), (ManagerState::Done, ManagerAction::Fail));
    assert_eq!(manager_step(ManagerState::Start, ManagerEvent::Lagged), (ManagerState::Start, ManagerAction::Ignore));
}
