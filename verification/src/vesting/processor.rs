//! The handlers of the operations on a vesting schedule.
//!
//! A handler either fails and leaves the schedule as it was, or updates it
//! and returns the calls that the host must make on the token ledger before
//! it stores the schedule.

use vstd::prelude::*;
use crate::address::{Address, Caller};
use crate::ledger::{token_account_amount, unpack_token_amount, DelegatedSigner, LedgerCall};
use crate::vesting::instruction::{VestingError, VestingInstruction};
use crate::vesting::state::{VestingSchedule, VestingType};

verus! {

/// What the host supplies with every invocation.
#[derive(Clone, Debug)]
pub struct VestingContext {
    /// The account that must have signed the operation.
    pub caller: Caller,
    /// The account named as beneficiary: the one a new schedule is for, or
    /// the one a schedule is handed to.
    pub beneficiary: Address,
    /// Whether the schedule's storage holds the reserve it must hold.
    pub rent_exempt: bool,
    /// The current time of the ledger's clock, in seconds.
    pub now: i64,
    /// The address of the schedule's record, under which the schedule signs.
    pub vesting_account: Address,
    /// The token account that holds the schedule's tokens.
    pub vesting_token: Address,
    /// The token account that receives what is released or taken back.
    pub destination_token: Address,
    /// What the ledger stores for the schedule's token account.
    pub vesting_token_data: Vec<u8>,
}

/// What a handler does when it succeeds.
pub struct VestingTransition {
    pub schedule: VestingSchedule,
    pub calls: Seq<LedgerCall>,
}

/// The transfer of `amount` out of the schedule's token account, signed by
/// the schedule.
pub open spec fn payout(context: &VestingContext, amount: u64) -> LedgerCall {
    LedgerCall::Transfer {
        source: context.vesting_token,
        destination: context.destination_token,
        authority: context.vesting_account,
        amount,
        signer: Some(DelegatedSigner::spec_for(context.vesting_account)),
    }
}

/// Creating a schedule, as a function of what the handler reads.
pub open spec fn spec_initialize(
    context: &VestingContext,
    start_timestamp: i64,
    end_timestamp: i64,
    total_amount: u64,
    vesting_type: VestingType,
) -> Result<VestingTransition, VestingError> {
    if !context.caller.is_signer {
        Err(VestingError::InvalidAuthority)
    } else if !context.rent_exempt {
        Err(VestingError::NotRentExempt)
    } else {
        Ok(
            VestingTransition {
                schedule: VestingSchedule {
                    is_initialized: true,
                    beneficiary: context.beneficiary,
                    start_timestamp,
                    end_timestamp,
                    total_amount,
                    released_amount: 0,
                    vesting_type,
                },
                calls: seq![],
            },
        )
    }
}

/// A release, as a function of what the handler reads.
pub open spec fn spec_release(schedule: &VestingSchedule, context: &VestingContext) -> Result<
    VestingTransition,
    VestingError,
> {
    if !context.caller.is_signer {
        Err(VestingError::InvalidAuthority)
    } else if schedule.beneficiary@ != context.caller.key@ {
        Err(VestingError::InvalidBeneficiary)
    } else if !schedule.well_formed() {
        Err(VestingError::InvalidVestingSchedule)
    } else if schedule.spec_releasable_amount(context.now) == 0 {
        Err(VestingError::NoTokensToRelease)
    } else {
        let amount = schedule.spec_releasable_amount(context.now) as u64;
        Ok(
            VestingTransition {
                schedule: VestingSchedule {
                    released_amount: (schedule.released_amount + amount) as u64,
                    ..*schedule
                },
                calls: seq![payout(context, amount)],
            },
        )
    }
}

/// A revocation, as a function of what the handler reads and of the balance
/// found in the schedule's token account.
pub open spec fn spec_revoke(
    schedule: &VestingSchedule,
    context: &VestingContext,
    balance: Option<u64>,
) -> Result<VestingTransition, VestingError> {
    if !context.caller.is_signer {
        Err(VestingError::InvalidAuthority)
    } else if !(schedule.vesting_type is Team || schedule.vesting_type is Advisor) {
        Err(VestingError::InvalidRevocation)
    } else {
        match balance {
            None => Err(VestingError::InvalidTokenAccount),
            Some(remaining) => Ok(
                VestingTransition {
                    schedule: *schedule,
                    calls: if remaining > 0 {
                        seq![payout(context, remaining)]
                    } else {
                        seq![]
                    },
                },
            ),
        }
    }
}

/// A change of beneficiary, as a function of what the handler reads.
pub open spec fn spec_update_beneficiary(
    schedule: &VestingSchedule,
    context: &VestingContext,
    new_beneficiary: Address,
) -> Result<VestingTransition, VestingError> {
    if !context.caller.is_signer {
        Err(VestingError::InvalidAuthority)
    } else if schedule.beneficiary@ != context.caller.key@ || new_beneficiary@
        != context.beneficiary@ {
        Err(VestingError::InvalidBeneficiary)
    } else {
        Ok(
            VestingTransition {
                schedule: VestingSchedule { beneficiary: new_beneficiary, ..*schedule },
                calls: seq![],
            },
        )
    }
}

/// One operation applied to the schedule, as a function of what the host
/// supplies.
pub open spec fn spec_process(
    schedule: &VestingSchedule,
    context: &VestingContext,
    instruction: VestingInstruction,
) -> Result<VestingTransition, VestingError> {
    match instruction {
        VestingInstruction::Initialize {
            start_timestamp,
            end_timestamp,
            total_amount,
            vesting_type,
        } => spec_initialize(context, start_timestamp, end_timestamp, total_amount, vesting_type),
        VestingInstruction::Release => spec_release(schedule, context),
        VestingInstruction::Revoke => spec_revoke(
            schedule,
            context,
            token_account_amount(context.vesting_token_data@),
        ),
        VestingInstruction::UpdateBeneficiary { new_beneficiary } => spec_update_beneficiary(
            schedule,
            context,
            new_beneficiary,
        ),
    }
}

/// Whether a handler's result and the schedule it left agree with
/// `expected`.
pub open spec fn agrees(
    result: Result<Vec<LedgerCall>, VestingError>,
    before: VestingSchedule,
    after: VestingSchedule,
    expected: Result<VestingTransition, VestingError>,
) -> bool {
    match expected {
        Ok(transition) => result is Ok && result->Ok_0@ =~= transition.calls && after
            == transition.schedule,
        Err(e) => result == Err::<Vec<LedgerCall>, VestingError>(e) && after == before,
    }
}

/// The routes of the operations on a vesting schedule.
pub struct Processor;

impl Processor {
    /// Applies one operation to the schedule: routes it to its handler.
    pub fn process(
        schedule: &mut VestingSchedule,
        context: &VestingContext,
        instruction: &VestingInstruction,
    ) -> (r: Result<Vec<LedgerCall>, VestingError>)
        ensures
            agrees(
                r,
                *old(schedule),
                *final(schedule),
                spec_process(old(schedule), context, *instruction),
            ),
    {
        match instruction {
            VestingInstruction::Initialize {
                start_timestamp,
                end_timestamp,
                total_amount,
                vesting_type,
            } => Self::process_initialize(
                schedule,
                context,
                *start_timestamp,
                *end_timestamp,
                *total_amount,
                *vesting_type,
            ),
            VestingInstruction::Release => Self::process_release(schedule, context),
            VestingInstruction::Revoke => Self::process_revoke(schedule, context),
            VestingInstruction::UpdateBeneficiary { new_beneficiary } => {
                Self::process_update_beneficiary(schedule, context, *new_beneficiary)
            },
        }
    }

    /// Creates a schedule for the named beneficiary with nothing released.
    pub fn process_initialize(
        schedule: &mut VestingSchedule,
        context: &VestingContext,
        start_timestamp: i64,
        end_timestamp: i64,
        total_amount: u64,
        vesting_type: VestingType,
    ) -> (r: Result<Vec<LedgerCall>, VestingError>)
        ensures
            agrees(
                r,
                *old(schedule),
                *final(schedule),
                spec_initialize(context, start_timestamp, end_timestamp, total_amount, vesting_type),
            ),
    {
        if !context.caller.is_signer {
            return Err(VestingError::InvalidAuthority);
        }
        if !context.rent_exempt {
            return Err(VestingError::NotRentExempt);
        }
        *schedule = VestingSchedule {
            is_initialized: true,
            beneficiary: context.beneficiary,
            start_timestamp,
            end_timestamp,
            total_amount,
            released_amount: 0,
            vesting_type,
        };
        Ok(Vec::new())
    }

    /// Pays what may be released to the beneficiary and counts it as
    /// released.
    pub fn process_release(schedule: &mut VestingSchedule, context: &VestingContext) -> (r: Result<
        Vec<LedgerCall>,
        VestingError,
    >)
        ensures
            agrees(r, *old(schedule), *final(schedule), spec_release(old(schedule), context)),
    {
        if !context.caller.is_signer {
            return Err(VestingError::InvalidAuthority);
        }
        if schedule.beneficiary != context.caller.key {
            return Err(VestingError::InvalidBeneficiary);
        }
        if !schedule.is_well_formed() {
            return Err(VestingError::InvalidVestingSchedule);
        }
        let amount: u64 = schedule.calculate_releasable_amount(context.now);
        if amount == 0 {
            return Err(VestingError::NoTokensToRelease);
        }
        let calls = vec![
            LedgerCall::Transfer {
                source: context.vesting_token,
                destination: context.destination_token,
                authority: context.vesting_account,
                amount,
                signer: Some(DelegatedSigner::for_account(context.vesting_account)),
            },
        ];
        schedule.released_amount = schedule.released_amount + amount;
        Ok(calls)
    }

    /// Takes back all that the schedule's token account still holds. Only a
    /// schedule of the team or of an advisor can be revoked.
    pub fn process_revoke(schedule: &VestingSchedule, context: &VestingContext) -> (r: Result<
        Vec<LedgerCall>,
        VestingError,
    >)
        ensures
            agrees(
                r,
                *schedule,
                *schedule,
                spec_revoke(schedule, context, token_account_amount(context.vesting_token_data@)),
            ),
    {
        let balance = unpack_token_amount(context.vesting_token_data.as_slice());
        Self::revoke_with_balance(schedule, context, balance)
    }

    /// Decides a revocation from the balance found in the schedule's token
    /// account: `None` where the account could not be read.
    pub fn revoke_with_balance(
        schedule: &VestingSchedule,
        context: &VestingContext,
        balance: Option<u64>,
    ) -> (r: Result<Vec<LedgerCall>, VestingError>)
        ensures
            agrees(r, *schedule, *schedule, spec_revoke(schedule, context, balance)),
    {
        if !context.caller.is_signer {
            return Err(VestingError::InvalidAuthority);
        }
        match schedule.vesting_type {
            VestingType::Team | VestingType::Advisor => {},
            _ => {
                return Err(VestingError::InvalidRevocation);
            },
        }
        let remaining: u64 = match balance {
            Some(remaining) => remaining,
            None => {
                return Err(VestingError::InvalidTokenAccount);
            },
        };
        if remaining > 0 {
            Ok(
                vec![
                    LedgerCall::Transfer {
                        source: context.vesting_token,
                        destination: context.destination_token,
                        authority: context.vesting_account,
                        amount: remaining,
                        signer: Some(DelegatedSigner::for_account(context.vesting_account)),
                    },
                ],
            )
        } else {
            Ok(Vec::new())
        }
    }

    /// Hands the schedule to `new_beneficiary`, who must be the account named
    /// as beneficiary in the invocation.
    pub fn process_update_beneficiary(
        schedule: &mut VestingSchedule,
        context: &VestingContext,
        new_beneficiary: Address,
    ) -> (r: Result<Vec<LedgerCall>, VestingError>)
        ensures
            agrees(
                r,
                *old(schedule),
                *final(schedule),
                spec_update_beneficiary(old(schedule), context, new_beneficiary),
            ),
    {
        if !context.caller.is_signer {
            return Err(VestingError::InvalidAuthority);
        }
        if schedule.beneficiary != context.caller.key {
            return Err(VestingError::InvalidBeneficiary);
        }
        if new_beneficiary != context.beneficiary {
            return Err(VestingError::InvalidBeneficiary);
        }
        schedule.beneficiary = new_beneficiary;
        Ok(Vec::new())
    }
}

} // verus!
