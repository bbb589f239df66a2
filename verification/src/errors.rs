//! The failure taxonomy: which failures abort the boot sequence, which
//! are logged and absorbed by the notifier loop, and which are silently
//! accepted by design.

use vstd::prelude::*;

verus! {

/// Every failure the system can observe.
#[derive(Clone, Copy, PartialEq, Eq, Structural, Debug)]
pub enum FailureKind {
    /// The co-processor session could not be constructed or brought up.
    SessionConstruction,
    /// The single network association attempt failed.
    AssociationFailed,
    /// A perpetual task could not be spawned.
    SpawnFailed,
    /// A perpetual task returned, which must never happen.
    TaskReturned,
    /// A hostname lookup returned no usable record.
    ResolutionFailed,
    /// The TCP or TLS connection could not be established.
    ConnectFailed,
    /// The request could not be delivered over the open connection.
    SendFailed,
    /// The peer presented an invalid or unexpected certificate.
    PeerCertificateInvalid,
}

/// What a failure means for control flow.
#[derive(Clone, Copy, PartialEq, Eq, Structural, Debug)]
pub enum Severity {
    /// Abort: the boot sequence cannot continue and the only recovery is
    /// a process restart.
    Fatal,
    /// Log one diagnostic record and carry on with the next cycle.
    RecoverableIgnored,
    /// Never even treated as an error: peer identity checking is
    /// disabled by explicit policy.
    SilentlyAbsorbed,
}

/// The classification table: bring-up and task failures are fatal,
/// per-cycle network failures are logged and ignored, and certificate
/// problems are invisible because verification is switched off.
pub open spec fn spec_severity(kind: FailureKind) -> Severity {
    match kind {
        FailureKind::SessionConstruction => Severity::Fatal,
        FailureKind::AssociationFailed => Severity::Fatal,
        FailureKind::SpawnFailed => Severity::Fatal,
        FailureKind::TaskReturned => Severity::Fatal,
        FailureKind::ResolutionFailed => Severity::RecoverableIgnored,
        FailureKind::ConnectFailed => Severity::RecoverableIgnored,
        FailureKind::SendFailed => Severity::RecoverableIgnored,
        FailureKind::PeerCertificateInvalid => Severity::SilentlyAbsorbed,
    }
}

/// Classify a failure.
pub fn classify(kind: FailureKind) -> (s: Severity)
    ensures
        s == spec_severity(kind),
{
    match kind {
        FailureKind::SessionConstruction => Severity::Fatal,
        FailureKind::AssociationFailed => Severity::Fatal,
        FailureKind::SpawnFailed => Severity::Fatal,
        FailureKind::TaskReturned => Severity::Fatal,
        FailureKind::ResolutionFailed => Severity::RecoverableIgnored,
        FailureKind::ConnectFailed => Severity::RecoverableIgnored,
        FailureKind::SendFailed => Severity::RecoverableIgnored,
        FailureKind::PeerCertificateInvalid => Severity::SilentlyAbsorbed,
    }
}

} // verus!
