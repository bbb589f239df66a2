use pico_notifier::bringup::{advance, next_duty, BringupDuty, BringupState};
use pico_notifier::errors::{classify, FailureKind, Severity};

#[test]
fn happy_path_runs_the_whole_line() {
    let mut state = BringupState::Uninitialized;
    let expected = [
        BringupState::FirmwareLoaded,
        BringupState::PowerModeConfigured,
        BringupState::Associating,
        BringupState::Associated,
        BringupState::Servicing,
    ];
    for next in expected {
        state = advance(state, true).unwrap();
        assert_eq!(state, next);
    }
    // servicing is terminal: further successful steps stay put
    assert_eq!(advance(state, true), Ok(BringupState::Servicing));
}

#[test]
fn each_state_owes_its_duty() {
    assert_eq!(next_duty(BringupState::Uninitialized), BringupDuty::LoadFirmware);
    assert_eq!(
        next_duty(BringupState::FirmwareLoaded),
        BringupDuty::ConfigurePowerMode
    );
    assert_eq!(
        next_duty(BringupState::PowerModeConfigured),
        BringupDuty::JoinNetwork
    );
    assert_eq!(
        next_duty(BringupState::Associating),
        BringupDuty::AwaitAssociation
    );
    assert_eq!(
        next_duty(BringupState::Associated),
        BringupDuty::HandOffServicing
    );
    assert_eq!(
        next_duty(BringupState::Servicing),
        BringupDuty::ServiceTransport
    );
}

#[test]
fn single_association_attempt_fails_fatally() {
    let outcome = advance(BringupState::Associating, false);
    assert_eq!(outcome, Err(FailureKind::AssociationFailed));
    assert_eq!(classify(FailureKind::AssociationFailed), Severity::Fatal);
}

#[test]
fn a_returning_perpetual_task_is_fatal() {
    let outcome = advance(BringupState::Servicing, false);
    assert_eq!(outcome, Err(FailureKind::TaskReturned));
    assert_eq!(classify(FailureKind::TaskReturned), Severity::Fatal);
}

#[test]
fn failed_spawn_is_fatal() {
    let outcome = advance(BringupState::Associated, false);
    assert_eq!(outcome, Err(FailureKind::SpawnFailed));
    assert_eq!(classify(FailureKind::SpawnFailed), Severity::Fatal);
}
