//! The co-processor driver's bring-up state machine: a linear sequence
//! from power-on to perpetual servicing, with no backward transitions.
//! The surrounding runtime performs each duty (load the firmware blobs,
//! configure power management, join the network, hand the driver to its
//! perpetual task) and feeds the outcome back in; the decisions live
//! here and are verified.

use crate::errors::FailureKind;
use vstd::prelude::*;

verus! {

/// The states of the bring-up sequence, in the order they are passed
/// through.
#[derive(Clone, Copy, PartialEq, Eq, Structural, Debug)]
pub enum BringupState {
    Uninitialized,
    FirmwareLoaded,
    PowerModeConfigured,
    Associating,
    Associated,
    Servicing,
}

/// The outside work each state calls for.
#[derive(Clone, Copy, PartialEq, Eq, Structural, Debug)]
pub enum BringupDuty {
    /// Construct the session and feed it the firmware and locale blobs.
    LoadFirmware,
    /// Select the power-management mode.
    ConfigurePowerMode,
    /// Issue the single association attempt with the supplied credentials.
    JoinNetwork,
    /// Wait for the association attempt to conclude.
    AwaitAssociation,
    /// Hand the driving half of the session to its perpetual task.
    HandOffServicing,
    /// Keep shuttling frames between host and co-processor, forever.
    ServiceTransport,
}

/// Position of a state in the linear order.
pub open spec fn rank(state: BringupState) -> int {
    match state {
        BringupState::Uninitialized => 0,
        BringupState::FirmwareLoaded => 1,
        BringupState::PowerModeConfigured => 2,
        BringupState::Associating => 3,
        BringupState::Associated => 4,
        BringupState::Servicing => 5,
    }
}

/// The duty owed in each state.
pub open spec fn spec_duty(state: BringupState) -> BringupDuty {
    match state {
        BringupState::Uninitialized => BringupDuty::LoadFirmware,
        BringupState::FirmwareLoaded => BringupDuty::ConfigurePowerMode,
        BringupState::PowerModeConfigured => BringupDuty::JoinNetwork,
        BringupState::Associating => BringupDuty::AwaitAssociation,
        BringupState::Associated => BringupDuty::HandOffServicing,
        BringupState::Servicing => BringupDuty::ServiceTransport,
    }
}

/// The transition table. `ok` is whether the state's duty succeeded.
/// Success advances to the next state in the line, except that servicing
/// is terminal and stays put. Every failure during bring-up is fatal:
/// one failed association attempt is surfaced, not retried, and a
/// perpetual task that returns is an unrecoverable fault.
pub open spec fn spec_advance(state: BringupState, ok: bool) -> Result<BringupState, FailureKind> {
    match state {
        BringupState::Uninitialized => if ok {
            Ok(BringupState::FirmwareLoaded)
        } else {
            Err(FailureKind::SessionConstruction)
        },
        BringupState::FirmwareLoaded => if ok {
            Ok(BringupState::PowerModeConfigured)
        } else {
            Err(FailureKind::SessionConstruction)
        },
        BringupState::PowerModeConfigured => if ok {
            Ok(BringupState::Associating)
        } else {
            Err(FailureKind::AssociationFailed)
        },
        BringupState::Associating => if ok {
            Ok(BringupState::Associated)
        } else {
            Err(FailureKind::AssociationFailed)
        },
        BringupState::Associated => if ok {
            Ok(BringupState::Servicing)
        } else {
            Err(FailureKind::SpawnFailed)
        },
        BringupState::Servicing => if ok {
            Ok(BringupState::Servicing)
        } else {
            Err(FailureKind::TaskReturned)
        },
    }
}

/// What the runtime must do next in this state.
pub fn next_duty(state: BringupState) -> (d: BringupDuty)
    ensures
        d == spec_duty(state),
{
    match state {
        BringupState::Uninitialized => BringupDuty::LoadFirmware,
        BringupState::FirmwareLoaded => BringupDuty::ConfigurePowerMode,
        BringupState::PowerModeConfigured => BringupDuty::JoinNetwork,
        BringupState::Associating => BringupDuty::AwaitAssociation,
        BringupState::Associated => BringupDuty::HandOffServicing,
        BringupState::Servicing => BringupDuty::ServiceTransport,
    }
}

/// Advance the bring-up machine on the outcome of the current duty.
pub fn advance(state: BringupState, ok: bool) -> (r: Result<BringupState, FailureKind>)
    ensures
        r == spec_advance(state, ok),
{
    match state {
        BringupState::Uninitialized => if ok {
            Ok(BringupState::FirmwareLoaded)
        } else {
            Err(FailureKind::SessionConstruction)
        },
        BringupState::FirmwareLoaded => if ok {
            Ok(BringupState::PowerModeConfigured)
        } else {
            Err(FailureKind::SessionConstruction)
        },
        BringupState::PowerModeConfigured => if ok {
            Ok(BringupState::Associating)
        } else {
            Err(FailureKind::AssociationFailed)
        },
        BringupState::Associating => if ok {
            Ok(BringupState::Associated)
        } else {
            Err(FailureKind::AssociationFailed)
        },
        BringupState::Associated => if ok {
            Ok(BringupState::Servicing)
        } else {
            Err(FailureKind::SpawnFailed)
        },
        BringupState::Servicing => if ok {
            Ok(BringupState::Servicing)
        } else {
            Err(FailureKind::TaskReturned)
        },
    }
}

/// The bring-up sequence is linear: a successful step never moves
/// backward, and before steady state every successful step moves exactly
/// one state forward.
pub proof fn lemma_bringup_is_linear(state: BringupState, ok: bool)
    ensures
        spec_advance(state, ok) matches Ok(next) ==> rank(next) >= rank(state),
        state != BringupState::Servicing ==> (spec_advance(state, ok) matches Ok(next) ==> rank(
            next,
        ) == rank(state) + 1),
        state == BringupState::Servicing ==> (spec_advance(state, ok) matches Ok(next) ==> next
            == state),
{
}

/// Every failure the bring-up machine can surface is fatal: the boot
/// sequence aborts rather than retrying.
pub proof fn lemma_bringup_failures_fatal(state: BringupState, ok: bool)
    ensures
        spec_advance(state, ok) matches Err(kind) ==> crate::errors::spec_severity(kind)
            == crate::errors::Severity::Fatal,
{
}

} // verus!
