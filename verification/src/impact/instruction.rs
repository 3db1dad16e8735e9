//! The operations on impact reports, and the errors they fail with.

use vstd::prelude::*;
use crate::impact::state::{GeoLocation, ImpactMetrics};

verus! {

/// One operation on impact reports with its payload.
#[derive(Clone, Copy, Debug)]
pub enum ImpactInstruction {
    /// Create the record of metrics. Signed by its authority.
    InitializeMetrics,
    /// Submit a report with the hash of its proof. Signed by its author.
    SubmitReport { location: GeoLocation, metrics: ImpactMetrics, proof_hash: [u8; 32] },
    /// Register as a verifier with a stake. Signed by the verifier.
    RegisterVerifier { stake_amount: u64 },
    /// Approve or reject a report. Signed by the verifier.
    VerifyReport { approved: bool, verification_notes_hash: [u8; 32] },
    /// Dispute a report with a stake. Signed by the challenger.
    SubmitDispute { evidence_hash: [u8; 32], stake_amount: u64 },
    /// Resolve a dispute. Signed by the authority.
    ResolveDispute { in_favor_of_report: bool, resolution_notes_hash: [u8; 32] },
    /// Replace the metrics. Signed by the authority.
    UpdateMetrics { new_metrics: ImpactMetrics },
}

/// Why an operation on impact reports was refused.
#[derive(Clone, Copy, Debug, PartialEq, Eq, Structural)]
pub enum ImpactError {
    InvalidInstruction,
    NotRentExempt,
    AlreadyInitialized,
    InvalidAuthority,
    InvalidVerifier,
    InsufficientStake,
    InvalidReport,
    InvalidDispute,
    DisputeAlreadyResolved,
    InvalidMetricsUpdate,
    InvalidProof,
    InvalidStakeAmount,
}

} // verus!
