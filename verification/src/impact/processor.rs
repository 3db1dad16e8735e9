//! The handlers of the operations on impact reports.

use vstd::prelude::*;
use crate::address::{Address, Caller};
use crate::impact::instruction::{ImpactError, ImpactInstruction};
use crate::impact::state::{
    GeoLocation,
    ImpactMetrics,
    ImpactReport,
    VerificationStatus,
    VerifierState,
    BASE_REPUTATION,
};
use crate::ledger::LedgerCall;

verus! {

/// The least stake a verifier must put up.
pub const MINIMUM_STAKE: u64 = 1000;

/// What the host supplies with every invocation.
#[derive(Clone, Copy, Debug)]
pub struct ImpactContext {
    /// The account that must have signed the operation.
    pub caller: Caller,
    /// Whether the storage of the record to create holds the reserve it must
    /// hold.
    pub rent_exempt: bool,
    /// The current time of the ledger's clock, in seconds.
    pub now: i64,
    /// The address of the verifier's record, which receives the stake.
    pub verifier_account: Address,
    /// The token account that the stake is taken from.
    pub stake_account: Address,
}

/// The records that the operations read and write.
#[derive(Clone, Copy, Debug)]
pub struct ImpactRecords {
    pub metrics: ImpactMetrics,
    pub report: ImpactReport,
    pub verifier: VerifierState,
}

/// What a handler does when it succeeds.
pub struct ImpactTransition {
    pub records: ImpactRecords,
    pub calls: Seq<LedgerCall>,
}

/// Creating the record of metrics, as a function of what the handler reads.
pub open spec fn spec_initialize_metrics(records: &ImpactRecords, context: &ImpactContext) -> Result<
    ImpactTransition,
    ImpactError,
> {
    if !context.caller.is_signer {
        Err(ImpactError::InvalidAuthority)
    } else if !context.rent_exempt {
        Err(ImpactError::NotRentExempt)
    } else {
        Ok(
            ImpactTransition {
                records: ImpactRecords {
                    metrics: ImpactMetrics {
                        is_initialized: true,
                        authority: context.caller.key,
                        last_update: context.now,
                        forest_area: 0,
                        carbon_offset: 0,
                        water_saved: 0,
                        biodiversity_score: 0,
                        energy_saved: 0,
                        waste_recycled: 0,
                        impact_score: 0,
                    },
                    ..*records
                },
                calls: seq![],
            },
        )
    }
}

/// Submitting a report, as a function of what the handler reads.
pub open spec fn spec_submit_report(
    records: &ImpactRecords,
    context: &ImpactContext,
    location: GeoLocation,
    metrics: ImpactMetrics,
    proof_hash: [u8; 32],
) -> Result<ImpactTransition, ImpactError> {
    if !context.caller.is_signer {
        Err(ImpactError::InvalidAuthority)
    } else {
        Ok(
            ImpactTransition {
                records: ImpactRecords {
                    report: ImpactReport {
                        timestamp: context.now,
                        location,
                        metrics,
                        verifier: Address::spec_zero(),
                        verification_status: VerificationStatus::Pending,
                        proof_hash,
                    },
                    ..*records
                },
                calls: seq![],
            },
        )
    }
}

/// Registering a verifier, as a function of what the handler reads.
pub open spec fn spec_register_verifier(
    records: &ImpactRecords,
    context: &ImpactContext,
    stake_amount: u64,
) -> Result<ImpactTransition, ImpactError> {
    if !context.caller.is_signer {
        Err(ImpactError::InvalidAuthority)
    } else if !context.rent_exempt {
        Err(ImpactError::NotRentExempt)
    } else if stake_amount < MINIMUM_STAKE {
        Err(ImpactError::InsufficientStake)
    } else {
        Ok(
            ImpactTransition {
                records: ImpactRecords {
                    verifier: VerifierState {
                        is_initialized: true,
                        authority: context.caller.key,
                        verifier_pubkey: context.caller.key,
                        reputation_score: BASE_REPUTATION,
                        verified_reports: 0,
                        stake_amount,
                    },
                    ..*records
                },
                calls: seq![
                    LedgerCall::Transfer {
                        source: context.stake_account,
                        destination: context.verifier_account,
                        authority: context.caller.key,
                        amount: stake_amount,
                        signer: None,
                    },
                ],
            },
        )
    }
}

/// Verifying a report, as a function of what the handler reads.
pub open spec fn spec_verify_report(
    records: &ImpactRecords,
    context: &ImpactContext,
    approved: bool,
) -> Result<ImpactTransition, ImpactError> {
    if !context.caller.is_signer {
        Err(ImpactError::InvalidAuthority)
    } else if records.verifier.verifier_pubkey@ != context.caller.key@ {
        Err(ImpactError::InvalidVerifier)
    } else if records.verifier.verified_reports == u64::MAX {
        Err(ImpactError::InvalidVerifier)
    } else {
        Ok(
            ImpactTransition {
                records: ImpactRecords {
                    report: ImpactReport {
                        verification_status: if approved {
                            VerificationStatus::Verified
                        } else {
                            VerificationStatus::Rejected
                        },
                        verifier: context.caller.key,
                        ..records.report
                    },
                    verifier: VerifierState {
                        verified_reports: (records.verifier.verified_reports + 1) as u64,
                        ..records.verifier
                    },
                    ..*records
                },
                calls: seq![],
            },
        )
    }
}

/// One operation applied to the records, as a function of what the host
/// supplies. The operations on disputes and the replacement of metrics have
/// no handler and are refused.
pub open spec fn spec_process(
    records: &ImpactRecords,
    context: &ImpactContext,
    instruction: ImpactInstruction,
) -> Result<ImpactTransition, ImpactError> {
    match instruction {
        ImpactInstruction::InitializeMetrics => spec_initialize_metrics(records, context),
        ImpactInstruction::SubmitReport { location, metrics, proof_hash } => spec_submit_report(
            records,
            context,
            location,
            metrics,
            proof_hash,
        ),
        ImpactInstruction::RegisterVerifier { stake_amount } => spec_register_verifier(
            records,
            context,
            stake_amount,
        ),
        ImpactInstruction::VerifyReport { approved, verification_notes_hash } => spec_verify_report(
            records,
            context,
            approved,
        ),
        _ => Err(ImpactError::InvalidInstruction),
    }
}

/// Whether a handler's result and the records it left agree with `expected`.
pub open spec fn agrees(
    result: Result<Vec<LedgerCall>, ImpactError>,
    before: ImpactRecords,
    after: ImpactRecords,
    expected: Result<ImpactTransition, ImpactError>,
) -> bool {
    match expected {
        Ok(transition) => result is Ok && result->Ok_0@ =~= transition.calls && after
            == transition.records,
        Err(e) => result == Err::<Vec<LedgerCall>, ImpactError>(e) && after == before,
    }
}

/// The routes of the operations on impact reports.
pub struct Processor;

impl Processor {
    /// Applies one operation to the records: routes it to its handler.
    pub fn process(
        records: &mut ImpactRecords,
        context: &ImpactContext,
        instruction: &ImpactInstruction,
    ) -> (r: Result<Vec<LedgerCall>, ImpactError>)
        ensures
            agrees(
                r,
                *old(records),
                *final(records),
                spec_process(old(records), context, *instruction),
            ),
    {
        match instruction {
            ImpactInstruction::InitializeMetrics => Self::process_initialize_metrics(
                records,
                context,
            ),
            ImpactInstruction::SubmitReport { location, metrics, proof_hash } => {
                Self::process_submit_report(records, context, *location, *metrics, *proof_hash)
            },
            ImpactInstruction::RegisterVerifier { stake_amount } => {
                Self::process_register_verifier(records, context, *stake_amount)
            },
            ImpactInstruction::VerifyReport { approved, verification_notes_hash } => {
                Self::process_verify_report(records, context, *approved)
            },
            _ => Err(ImpactError::InvalidInstruction),
        }
    }

    /// Creates the record of metrics, all of them zero, with the caller as
    /// authority.
    pub fn process_initialize_metrics(records: &mut ImpactRecords, context: &ImpactContext) -> (r:
        Result<Vec<LedgerCall>, ImpactError>)
        ensures
            agrees(
                r,
                *old(records),
                *final(records),
                spec_initialize_metrics(old(records), context),
            ),
    {
        if !context.caller.is_signer {
            return Err(ImpactError::InvalidAuthority);
        }
        if !context.rent_exempt {
            return Err(ImpactError::NotRentExempt);
        }
        records.metrics = ImpactMetrics {
            is_initialized: true,
            authority: context.caller.key,
            last_update: context.now,
            forest_area: 0,
            carbon_offset: 0,
            water_saved: 0,
            biodiversity_score: 0,
            energy_saved: 0,
            waste_recycled: 0,
            impact_score: 0,
        };
        Ok(Vec::new())
    }

    /// Stores a report that waits for its verification.
    pub fn process_submit_report(
        records: &mut ImpactRecords,
        context: &ImpactContext,
        location: GeoLocation,
        metrics: ImpactMetrics,
        proof_hash: [u8; 32],
    ) -> (r: Result<Vec<LedgerCall>, ImpactError>)
        ensures
            agrees(
                r,
                *old(records),
                *final(records),
                spec_submit_report(old(records), context, location, metrics, proof_hash),
            ),
    {
        if !context.caller.is_signer {
            return Err(ImpactError::InvalidAuthority);
        }
        records.report = ImpactReport {
            timestamp: context.now,
            location,
            metrics,
            verifier: Address::zero(),
            verification_status: VerificationStatus::Pending,
            proof_hash,
        };
        Ok(Vec::new())
    }

    /// Registers the caller as a verifier with a reputation of 500 and takes
    /// the stake, which must be 1000 at least.
    pub fn process_register_verifier(
        records: &mut ImpactRecords,
        context: &ImpactContext,
        stake_amount: u64,
    ) -> (r: Result<Vec<LedgerCall>, ImpactError>)
        ensures
            agrees(
                r,
                *old(records),
                *final(records),
                spec_register_verifier(old(records), context, stake_amount),
            ),
    {
        if !context.caller.is_signer {
            return Err(ImpactError::InvalidAuthority);
        }
        if !context.rent_exempt {
            return Err(ImpactError::NotRentExempt);
        }
        if stake_amount < MINIMUM_STAKE {
            return Err(ImpactError::InsufficientStake);
        }
        records.verifier = VerifierState {
            is_initialized: true,
            authority: context.caller.key,
            verifier_pubkey: context.caller.key,
            reputation_score: BASE_REPUTATION,
            verified_reports: 0,
            stake_amount,
        };
        Ok(
            vec![
                LedgerCall::Transfer {
                    source: context.stake_account,
                    destination: context.verifier_account,
                    authority: context.caller.key,
                    amount: stake_amount,
                    signer: None,
                },
            ],
        )
    }

    /// Marks the report as verified or rejected by the caller, who must be
    /// the registered verifier, and counts it. A verifier whose count is full
    /// is refused as invalid.
    pub fn process_verify_report(
        records: &mut ImpactRecords,
        context: &ImpactContext,
        approved: bool,
    ) -> (r: Result<Vec<LedgerCall>, ImpactError>)
        ensures
            agrees(
                r,
                *old(records),
                *final(records),
                spec_verify_report(old(records), context, approved),
            ),
    {
        if !context.caller.is_signer {
            return Err(ImpactError::InvalidAuthority);
        }
        if records.verifier.verifier_pubkey != context.caller.key {
            return Err(ImpactError::InvalidVerifier);
        }
        let counted: u64 = match records.verifier.verified_reports.checked_add(1) {
            Some(counted) => counted,
            None => {
                return Err(ImpactError::InvalidVerifier);
            },
        };
        records.report.verification_status = if approved {
            VerificationStatus::Verified
        } else {
            VerificationStatus::Rejected
        };
        records.report.verifier = context.caller.key;
        records.verifier.verified_reports = counted;
        Ok(Vec::new())
    }
}

} // verus!
