//! The handlers of the staking pool's operations.
//!
//! A handler is one atomic transition: it reads the records it is handed,
//! decides, and either fails and leaves them as they were, or updates them
//! and returns the calls that the host must make on the token ledger, in
//! order, before it stores the records. If one of those calls fails the host
//! drops the updated records.

use vstd::prelude::*;
use crate::address::{Address, Caller};
use crate::ledger::{DelegatedSigner, LedgerCall};
use crate::fixed_point::{base_for, derivative_for, to_base, to_derivative, SCALE};
use crate::lst::instruction::{LSTError, LSTInstruction};
use crate::lst::state::{LSTPool, LSTType, StakerInfo, UnstakeRequest, MAX_FEE_RATE};

verus! {

/// The token accounts an operation refers to.
#[derive(Clone, Copy, Debug)]
pub struct TokenAccounts {
    /// The address of the pool record, under which the pool signs.
    pub pool: Address,
    /// The caller's account of the base asset.
    pub caller_soul: Address,
    /// The pool's account of the base asset.
    pub pool_soul: Address,
    /// The caller's account of the derivative asset.
    pub caller_lst: Address,
    /// The pool's reserve from which rewards are paid.
    pub pool_rewards: Address,
}

/// What the host supplies with every invocation.
#[derive(Clone, Copy, Debug)]
pub struct Context {
    pub caller: Caller,
    pub accounts: TokenAccounts,
    /// The ledger of the base asset, read when a pool is created.
    pub soul_mint: Address,
    /// The ledger of the derivative asset, read when a pool is created.
    pub lst_mint: Address,
    /// Whether the pool's storage holds the reserve it must hold.
    pub rent_exempt: bool,
    /// The current time of the ledger's clock, in seconds.
    pub now: i64,
    /// The delay between a withdrawal's request and its execution, in
    /// seconds. The pool's operator configures it.
    pub cooldown: u64,
}

/// Whether the caller signed and owns the position.
pub open spec fn is_position_owner(caller: &Caller, position: &StakerInfo) -> bool {
    caller.is_signer && caller.key@ == position.owner@
}

/// Whether the caller signed and is the pool's authority.
pub open spec fn is_pool_authority(caller: &Caller, pool: &LSTPool) -> bool {
    caller.is_signer && caller.key@ == pool.authority@
}

/// Why creating a pool fails, if it does.
pub open spec fn initialize_error(
    pool: &LSTPool,
    caller: &Caller,
    rent_exempt: bool,
    fee_rate: u64,
) -> Option<LSTError> {
    if !caller.is_signer {
        Some(LSTError::InvalidAuthority)
    } else if pool.is_initialized {
        Some(LSTError::AlreadyInitialized)
    } else if !rent_exempt {
        Some(LSTError::NotRentExempt)
    } else if fee_rate > MAX_FEE_RATE {
        Some(LSTError::InvalidFeeRate)
    } else {
        None
    }
}

/// Why a stake fails, if it does.
pub open spec fn stake_error(
    pool: &LSTPool,
    position: &StakerInfo,
    caller: &Caller,
    amount: u64,
) -> Option<LSTError> {
    if !is_position_owner(caller, position) {
        Some(LSTError::InvalidAuthority)
    } else if pool.exchange_rate == 0 {
        Some(LSTError::ExchangeRateError)
    } else if derivative_for(amount as int, pool.exchange_rate as int) > u64::MAX
        || pool.total_staked + amount > u64::MAX || position.staked_amount + amount > u64::MAX {
        Some(LSTError::AmountOverflow)
    } else {
        None
    }
}

/// Why a withdrawal request fails, if it does.
pub open spec fn request_unstake_error(
    position: &StakerInfo,
    caller: &Caller,
    amount: u64,
    now: i64,
    cooldown: u64,
) -> Option<LSTError> {
    if !is_position_owner(caller, position) {
        Some(LSTError::InvalidAuthority)
    } else if amount > position.staked_amount {
        Some(LSTError::InsufficientFunds)
    } else if now + cooldown > i64::MAX {
        Some(LSTError::AmountOverflow)
    } else {
        None
    }
}

/// Why carrying out a withdrawal fails, if it does.
pub open spec fn execute_unstake_error(
    pool: &LSTPool,
    position: &StakerInfo,
    caller: &Caller,
    now: i64,
) -> Option<LSTError> {
    if !is_position_owner(caller, position) {
        Some(LSTError::InvalidAuthority)
    } else if !position.spec_can_unstake(now) {
        Some(LSTError::UnstakeRequestNotReady)
    } else if position.unstake_request->0.amount > position.staked_amount {
        Some(LSTError::InvalidUnstakeRequest)
    } else if position.unstake_request->0.amount > pool.total_staked {
        Some(LSTError::InsufficientFunds)
    } else if pool.exchange_rate == 0 {
        Some(LSTError::ExchangeRateError)
    } else if base_for(position.unstake_request->0.amount as int, pool.exchange_rate as int)
        > u64::MAX || derivative_for(
        position.unstake_request->0.amount as int,
        pool.exchange_rate as int,
    ) > u64::MAX {
        Some(LSTError::AmountOverflow)
    } else {
        None
    }
}

/// Why a claim of rewards fails, if it does.
pub open spec fn claim_rewards_error(
    pool: &LSTPool,
    position: &StakerInfo,
    caller: &Caller,
    now: i64,
) -> Option<LSTError> {
    if !is_position_owner(caller, position) {
        Some(LSTError::InvalidAuthority)
    } else if pool.spec_gross_rewards(position, now) > u64::MAX {
        Some(LSTError::AmountOverflow)
    } else if pool.spec_pending_rewards(position, now) == 0 {
        Some(LSTError::NoRewardsToHarvest)
    } else {
        None
    }
}

/// Why a change of the pool's parameters fails, if it does.
pub open spec fn update_pool_error(
    pool: &LSTPool,
    caller: &Caller,
    new_fee_rate: Option<u64>,
) -> Option<LSTError> {
    if !is_pool_authority(caller, pool) {
        Some(LSTError::InvalidAuthority)
    } else if new_fee_rate matches Some(rate) && rate > MAX_FEE_RATE {
        Some(LSTError::InvalidFeeRate)
    } else {
        None
    }
}

/// What a handler does when it succeeds: the records as they are to be
/// stored and the ledger calls to make first, in order.
pub struct Transition {
    pub pool: LSTPool,
    pub position: StakerInfo,
    pub calls: Seq<LedgerCall>,
}

/// The pool that `process_initialize_pool` creates.
pub open spec fn initialized_pool(
    caller: &Caller,
    soul_mint: Address,
    lst_mint: Address,
    pool_type: LSTType,
    fee_rate: u64,
    now: i64,
) -> LSTPool {
    LSTPool {
        is_initialized: true,
        authority: caller.key,
        soul_mint,
        lst_mint,
        total_staked: 0,
        exchange_rate: SCALE,
        rewards_per_token: 0,
        last_update_time: now,
        pool_type,
        fee_rate,
    }
}

/// Creating a pool, as a function of what the handler reads.
pub open spec fn spec_initialize_pool(
    pool: &LSTPool,
    caller: &Caller,
    soul_mint: Address,
    lst_mint: Address,
    rent_exempt: bool,
    pool_type: LSTType,
    fee_rate: u64,
    now: i64,
) -> Result<LSTPool, LSTError> {
    match initialize_error(pool, caller, rent_exempt, fee_rate) {
        Some(e) => Err(e),
        None => Ok(initialized_pool(caller, soul_mint, lst_mint, pool_type, fee_rate, now)),
    }
}

/// A stake, as a function of what the handler reads.
pub open spec fn spec_stake(
    pool: &LSTPool,
    position: &StakerInfo,
    caller: &Caller,
    accounts: &TokenAccounts,
    amount: u64,
    now: i64,
) -> Result<Transition, LSTError> {
    match stake_error(pool, position, caller, amount) {
        Some(e) => Err(e),
        None => Ok(
            Transition {
                pool: LSTPool { total_staked: (pool.total_staked + amount) as u64, ..*pool },
                position: StakerInfo {
                    staked_amount: (position.staked_amount + amount) as u64,
                    last_stake_time: now,
                    ..*position
                },
                calls: seq![
                    LedgerCall::Transfer {
                        source: accounts.caller_soul,
                        destination: accounts.pool_soul,
                        authority: caller.key,
                        amount,
                        signer: None,
                    },
                    LedgerCall::MintTo {
                        mint: pool.lst_mint,
                        destination: accounts.caller_lst,
                        authority: accounts.pool,
                        amount: derivative_for(amount as int, pool.exchange_rate as int) as u64,
                        signer: Some(DelegatedSigner::spec_for(accounts.pool)),
                    },
                ],
            },
        ),
    }
}

/// A withdrawal request, as a function of what the handler reads.
pub open spec fn spec_request_unstake(
    position: &StakerInfo,
    caller: &Caller,
    amount: u64,
    now: i64,
    cooldown: u64,
) -> Result<StakerInfo, LSTError> {
    match request_unstake_error(position, caller, amount, now, cooldown) {
        Some(e) => Err(e),
        None => Ok(
            StakerInfo {
                unstake_request: Some(
                    UnstakeRequest { amount, request_time: now, unlock_time: (now + cooldown) as i64 },
                ),
                ..*position
            },
        ),
    }
}

/// Carrying out a withdrawal, as a function of what the handler reads.
pub open spec fn spec_execute_unstake(
    pool: &LSTPool,
    position: &StakerInfo,
    caller: &Caller,
    accounts: &TokenAccounts,
    now: i64,
) -> Result<Transition, LSTError> {
    match execute_unstake_error(pool, position, caller, now) {
        Some(e) => Err(e),
        None => {
            let amount = position.unstake_request->0.amount;
            Ok(
                Transition {
                    pool: LSTPool { total_staked: (pool.total_staked - amount) as u64, ..*pool },
                    position: StakerInfo {
                        staked_amount: (position.staked_amount - amount) as u64,
                        unstake_request: None,
                        ..*position
                    },
                    calls: seq![
                        LedgerCall::Burn {
                            account: accounts.caller_lst,
                            mint: pool.lst_mint,
                            authority: caller.key,
                            amount: derivative_for(amount as int, pool.exchange_rate as int) as u64,
                            signer: None,
                        },
                        LedgerCall::Transfer {
                            source: accounts.pool_soul,
                            destination: accounts.caller_soul,
                            authority: accounts.pool,
                            amount: base_for(amount as int, pool.exchange_rate as int) as u64,
                            signer: Some(DelegatedSigner::spec_for(accounts.pool)),
                        },
                    ],
                },
            )
        },
    }
}

/// A claim of rewards, as a function of what the handler reads.
pub open spec fn spec_claim_rewards(
    pool: &LSTPool,
    position: &StakerInfo,
    caller: &Caller,
    accounts: &TokenAccounts,
    now: i64,
) -> Result<Transition, LSTError> {
    match claim_rewards_error(pool, position, caller, now) {
        Some(e) => Err(e),
        None => {
            let pending = pool.spec_pending_rewards(position, now);
            Ok(
                Transition {
                    pool: *pool,
                    position: StakerInfo {
                        rewards_debt: (position.rewards_debt + pending) as u64,
                        ..*position
                    },
                    calls: seq![
                        LedgerCall::Transfer {
                            source: accounts.pool_rewards,
                            destination: accounts.caller_soul,
                            authority: accounts.pool,
                            amount: pending as u64,
                            signer: Some(DelegatedSigner::spec_for(accounts.pool)),
                        },
                    ],
                },
            )
        },
    }
}

/// A change of the pool's parameters, as a function of what the handler
/// reads.
pub open spec fn spec_update_pool(
    pool: &LSTPool,
    caller: &Caller,
    new_fee_rate: Option<u64>,
) -> Result<LSTPool, LSTError> {
    match update_pool_error(pool, caller, new_fee_rate) {
        Some(e) => Err(e),
        None => Ok(
            LSTPool {
                fee_rate: match new_fee_rate {
                    Some(rate) => rate,
                    None => pool.fee_rate,
                },
                ..*pool
            },
        ),
    }
}

/// An emergency withdrawal, as a function of what the handler reads.
pub open spec fn spec_emergency_withdraw(
    pool: &LSTPool,
    caller: &Caller,
    accounts: &TokenAccounts,
    amount: u64,
) -> Result<Seq<LedgerCall>, LSTError> {
    if !is_pool_authority(caller, pool) {
        Err(LSTError::InvalidAuthority)
    } else {
        Ok(
            seq![
                LedgerCall::Transfer {
                    source: accounts.pool_soul,
                    destination: accounts.caller_soul,
                    authority: accounts.pool,
                    amount,
                    signer: Some(DelegatedSigner::spec_for(accounts.pool)),
                },
            ],
        )
    }
}

/// One operation applied to the records, as a function of what the host
/// supplies.
pub open spec fn spec_dispatch(
    pool: &LSTPool,
    position: &StakerInfo,
    context: &Context,
    instruction: LSTInstruction,
) -> Result<Transition, LSTError> {
    match instruction {
        LSTInstruction::InitializePool { pool_type, fee_rate } => match spec_initialize_pool(
            pool,
            &context.caller,
            context.soul_mint,
            context.lst_mint,
            context.rent_exempt,
            pool_type,
            fee_rate,
            context.now,
        ) {
            Ok(created) => Ok(Transition { pool: created, position: *position, calls: seq![] }),
            Err(e) => Err(e),
        },
        LSTInstruction::Stake { amount } => spec_stake(
            pool,
            position,
            &context.caller,
            &context.accounts,
            amount,
            context.now,
        ),
        LSTInstruction::RequestUnstake { amount } => match spec_request_unstake(
            position,
            &context.caller,
            amount,
            context.now,
            context.cooldown,
        ) {
            Ok(requested) => Ok(Transition { pool: *pool, position: requested, calls: seq![] }),
            Err(e) => Err(e),
        },
        LSTInstruction::ExecuteUnstake => spec_execute_unstake(
            pool,
            position,
            &context.caller,
            &context.accounts,
            context.now,
        ),
        LSTInstruction::ClaimRewards => spec_claim_rewards(
            pool,
            position,
            &context.caller,
            &context.accounts,
            context.now,
        ),
        LSTInstruction::UpdatePool { new_fee_rate } => match spec_update_pool(
            pool,
            &context.caller,
            new_fee_rate,
        ) {
            Ok(updated) => Ok(Transition { pool: updated, position: *position, calls: seq![] }),
            Err(e) => Err(e),
        },
        LSTInstruction::EmergencyWithdraw { amount } => match spec_emergency_withdraw(
            pool,
            &context.caller,
            &context.accounts,
            amount,
        ) {
            Ok(calls) => Ok(Transition { pool: *pool, position: *position, calls }),
            Err(e) => Err(e),
        },
    }
}

/// One encoded operation applied to the records.
pub open spec fn spec_process(
    pool: &LSTPool,
    position: &StakerInfo,
    context: &Context,
    data: Seq<u8>,
) -> Result<Transition, LSTError> {
    match LSTInstruction::spec_unpack(data) {
        Some(instruction) => spec_dispatch(pool, position, context, instruction),
        None => Err(LSTError::InvalidInstruction),
    }
}

/// Whether a handler's result and the records it left agree with `expected`:
/// on success the records and calls are those of the transition; on failure
/// the error is the expected one and the records are untouched.
pub open spec fn agrees(
    result: Result<Vec<LedgerCall>, LSTError>,
    pool_before: LSTPool,
    position_before: StakerInfo,
    pool_after: LSTPool,
    position_after: StakerInfo,
    expected: Result<Transition, LSTError>,
) -> bool {
    match expected {
        Ok(transition) => result is Ok && result->Ok_0@ =~= transition.calls && pool_after
            == transition.pool && position_after == transition.position,
        Err(e) => result == Err::<Vec<LedgerCall>, LSTError>(e) && pool_after == pool_before
            && position_after == position_before,
    }
}

/// Whether a full withdrawal of `amount` at `rate` pays the deposit back up to
/// one unit of rounding: the rate is so near 1:1 that it moves `amount` by
/// less than a unit.
pub open spec fn within_rounding(amount: int, rate: int) -> bool {
    amount * (rate - SCALE) < SCALE && amount * (SCALE - rate) <= SCALE
}

/// The payout of a withdrawal is the amount itself, or one unit less, exactly
/// at the rates that are within rounding of 1:1. At 1:1 it is the amount.
pub proof fn lemma_payout_within_rounding(amount: u64, rate: u64)
    ensures
        within_rounding(amount as int, rate as int) <==> amount - 1 <= base_for(
            amount as int,
            rate as int,
        ) <= amount,
        base_for(amount as int, SCALE as int) == amount,
{
    let a = amount as int;
    let r = rate as int;
    let product = a * r;
    assert(a * (r - 1_000_000_000) == product - a * 1_000_000_000) by (nonlinear_arith)
        requires
            product == a * r,
    ;
    assert(a * (1_000_000_000 - r) == a * 1_000_000_000 - product) by (nonlinear_arith)
        requires
            product == a * r,
    ;
    assert(a * 1_000_000_000 / 1_000_000_000 == a);
}

/// A stake that is withdrawn in full at the rate it was made at: the request
/// and the execution succeed once the cooldown has passed, the tokens burned
/// are the tokens minted, the pool's and the position's principal are what
/// they were before the stake, and at a rate within rounding of 1:1 the
/// payout is the deposit or one unit less. Neither step takes a fee, whatever
/// the pool's fee rate is.
pub proof fn lemma_stake_unstake_round_trip(
    pool: LSTPool,
    position: StakerInfo,
    caller: Caller,
    accounts: TokenAccounts,
    amount: u64,
    now: i64,
    cooldown: u64,
    later: i64,
)
    requires
        spec_stake(&pool, &position, &caller, &accounts, amount, now) is Ok,
        now + cooldown <= later,
        within_rounding(amount as int, pool.exchange_rate as int),
    ensures
        ({
            let staked = spec_stake(&pool, &position, &caller, &accounts, amount, now)->Ok_0;
            let requested = spec_request_unstake(&staked.position, &caller, amount, now, cooldown);
            let executed = spec_execute_unstake(
                &staked.pool,
                &requested->Ok_0,
                &caller,
                &accounts,
                later,
            );
            &&& requested is Ok
            &&& executed is Ok
            &&& executed->Ok_0.pool.total_staked == pool.total_staked
            &&& executed->Ok_0.position.staked_amount == position.staked_amount
            &&& executed->Ok_0.position.unstake_request is None
            &&& executed->Ok_0.calls[0]->Burn_amount == staked.calls[1]->MintTo_amount
            &&& executed->Ok_0.calls[1] is Transfer
            &&& amount - 1 <= executed->Ok_0.calls[1]->Transfer_amount <= amount
        }),
{
    lemma_payout_within_rounding(amount, pool.exchange_rate);
}

/// A request for more than is staked fails with `InsufficientFunds`.
pub proof fn lemma_request_beyond_stake_fails(
    position: StakerInfo,
    caller: Caller,
    amount: u64,
    now: i64,
    cooldown: u64,
)
    requires
        is_position_owner(&caller, &position),
        amount > position.staked_amount,
    ensures
        spec_request_unstake(&position, &caller, amount, now, cooldown) == Err::<
            StakerInfo,
            LSTError,
        >(LSTError::InsufficientFunds),
{
}

/// A withdrawal executed before its unlock time fails with
/// `UnstakeRequestNotReady`.
pub proof fn lemma_execute_before_unlock_fails(
    pool: LSTPool,
    position: StakerInfo,
    caller: Caller,
    accounts: TokenAccounts,
    now: i64,
)
    requires
        is_position_owner(&caller, &position),
        position.unstake_request matches Some(request) && now < request.unlock_time,
    ensures
        spec_execute_unstake(&pool, &position, &caller, &accounts, now) == Err::<
            Transition,
            LSTError,
        >(LSTError::UnstakeRequestNotReady),
{
}

/// A withdrawal executed at or after its unlock time succeeds and clears the
/// request, where the pool holds the requested principal, the rate is not
/// zero and the amounts to pay and to burn fit in 64 bits.
pub proof fn lemma_execute_after_unlock_succeeds(
    pool: LSTPool,
    position: StakerInfo,
    caller: Caller,
    accounts: TokenAccounts,
    now: i64,
)
    requires
        is_position_owner(&caller, &position),
        position.well_formed(),
        position.unstake_request matches Some(request) && now >= request.unlock_time
            && request.amount <= pool.total_staked && base_for(
            request.amount as int,
            pool.exchange_rate as int,
        ) <= u64::MAX && derivative_for(request.amount as int, pool.exchange_rate as int)
            <= u64::MAX,
        pool.exchange_rate > 0,
    ensures
        spec_execute_unstake(&pool, &position, &caller, &accounts, now) matches Ok(transition)
            && transition.position.unstake_request is None,
{
}

/// Creating a pool in a fresh record succeeds with a fee rate up to the cap
/// of 100,000,000 and fails with `InvalidFeeRate` above it.
pub proof fn lemma_initialize_fee_cap(
    pool: LSTPool,
    caller: Caller,
    soul_mint: Address,
    lst_mint: Address,
    pool_type: LSTType,
    fee_rate: u64,
    now: i64,
)
    requires
        caller.is_signer,
        !pool.is_initialized,
    ensures
        fee_rate <= 100_000_000 ==> spec_initialize_pool(
            &pool,
            &caller,
            soul_mint,
            lst_mint,
            true,
            pool_type,
            fee_rate,
            now,
        ) is Ok,
        fee_rate > 100_000_000 ==> spec_initialize_pool(
            &pool,
            &caller,
            soul_mint,
            lst_mint,
            true,
            pool_type,
            fee_rate,
            now,
        ) == Err::<LSTPool, LSTError>(LSTError::InvalidFeeRate),
{
}

/// A claim on a position with nothing staked fails with
/// `NoRewardsToHarvest`.
pub proof fn lemma_claim_without_stake_fails(
    pool: LSTPool,
    position: StakerInfo,
    caller: Caller,
    accounts: TokenAccounts,
    now: i64,
)
    requires
        is_position_owner(&caller, &position),
        position.staked_amount == 0,
    ensures
        spec_claim_rewards(&pool, &position, &caller, &accounts, now) == Err::<
            Transition,
            LSTError,
        >(LSTError::NoRewardsToHarvest),
{
}

/// No operation but the creation of the pool touches the exchange rate, and
/// every operation keeps the records well formed: the fee rate stays within
/// its cap, and a pending withdrawal asks for no more than is staked.
pub proof fn lemma_dispatch_keeps_invariants(
    pool: LSTPool,
    position: StakerInfo,
    context: Context,
    instruction: LSTInstruction,
)
    requires
        spec_dispatch(&pool, &position, &context, instruction) is Ok,
    ensures
        ({
            let after = spec_dispatch(&pool, &position, &context, instruction)->Ok_0;
            &&& instruction is InitializePool ==> after.pool.exchange_rate == SCALE
                && after.pool.well_formed()
            &&& instruction !is InitializePool ==> after.pool.exchange_rate == pool.exchange_rate
            &&& pool.well_formed() ==> after.pool.well_formed()
            &&& position.well_formed() ==> after.position.well_formed()
        }),
{
}

/// The routes of the staking pool's operations.
pub struct Processor;

impl Processor {
    /// Decodes one operation and applies it to the records.
    pub fn process(
        pool: &mut LSTPool,
        position: &mut StakerInfo,
        context: &Context,
        instruction_data: &[u8],
    ) -> (r: Result<Vec<LedgerCall>, LSTError>)
        ensures
            agrees(
                r,
                *old(pool),
                *old(position),
                *final(pool),
                *final(position),
                spec_process(old(pool), old(position), context, instruction_data@),
            ),
    {
        match LSTInstruction::unpack(instruction_data) {
            Ok(instruction) => Self::dispatch(pool, position, context, &instruction),
            Err(e) => Err(e),
        }
    }

    /// Applies one operation to the records: routes it to its handler.
    pub fn dispatch(
        pool: &mut LSTPool,
        position: &mut StakerInfo,
        context: &Context,
        instruction: &LSTInstruction,
    ) -> (r: Result<Vec<LedgerCall>, LSTError>)
        ensures
            agrees(
                r,
                *old(pool),
                *old(position),
                *final(pool),
                *final(position),
                spec_dispatch(old(pool), old(position), context, *instruction),
            ),
    {
        match instruction {
            LSTInstruction::InitializePool { pool_type, fee_rate } => {
                match Self::process_initialize_pool(
                    pool,
                    &context.caller,
                    context.soul_mint,
                    context.lst_mint,
                    context.rent_exempt,
                    *pool_type,
                    *fee_rate,
                    context.now,
                ) {
                    Ok(_) => Ok(Vec::new()),
                    Err(e) => Err(e),
                }
            },
            LSTInstruction::Stake { amount } => Self::process_stake(
                pool,
                position,
                &context.caller,
                &context.accounts,
                *amount,
                context.now,
            ),
            LSTInstruction::RequestUnstake { amount } => {
                match Self::process_request_unstake(
                    position,
                    &context.caller,
                    *amount,
                    context.now,
                    context.cooldown,
                ) {
                    Ok(_) => Ok(Vec::new()),
                    Err(e) => Err(e),
                }
            },
            LSTInstruction::ExecuteUnstake => Self::process_execute_unstake(
                pool,
                position,
                &context.caller,
                &context.accounts,
                context.now,
            ),
            LSTInstruction::ClaimRewards => Self::process_claim_rewards(
                pool,
                position,
                &context.caller,
                &context.accounts,
                context.now,
            ),
            LSTInstruction::UpdatePool { new_fee_rate } => {
                match Self::process_update_pool(pool, &context.caller, *new_fee_rate) {
                    Ok(_) => Ok(Vec::new()),
                    Err(e) => Err(e),
                }
            },
            LSTInstruction::EmergencyWithdraw { amount } => Self::process_emergency_withdraw(
                pool,
                &context.caller,
                &context.accounts,
                *amount,
            ),
        }
    }

    /// Creates the pool in a record that holds none yet: rate 1:1, nothing
    /// staked, the caller as authority.
    pub fn process_initialize_pool(
        pool: &mut LSTPool,
        caller: &Caller,
        soul_mint: Address,
        lst_mint: Address,
        rent_exempt: bool,
        pool_type: LSTType,
        fee_rate: u64,
        now: i64,
    ) -> (r: Result<(), LSTError>)
        ensures
            match spec_initialize_pool(
                old(pool),
                caller,
                soul_mint,
                lst_mint,
                rent_exempt,
                pool_type,
                fee_rate,
                now,
            ) {
                Ok(created) => r is Ok && *final(pool) == created,
                Err(e) => r == Err::<(), LSTError>(e) && *final(pool) == *old(pool),
            },
    {
        if !caller.is_signer {
            return Err(LSTError::InvalidAuthority);
        }
        if pool.is_initialized {
            return Err(LSTError::AlreadyInitialized);
        }
        if !rent_exempt {
            return Err(LSTError::NotRentExempt);
        }
        if fee_rate > MAX_FEE_RATE {
            return Err(LSTError::InvalidFeeRate);
        }
        *pool = LSTPool {
            is_initialized: true,
            authority: caller.key,
            soul_mint,
            lst_mint,
            total_staked: 0,
            exchange_rate: SCALE,
            rewards_per_token: 0,
            last_update_time: now,
            pool_type,
            fee_rate,
        };
        Ok(())
    }

    /// Takes `amount` of the base asset from the staker into the pool and
    /// issues `floor(amount * 1e9 / exchange_rate)` derivative tokens to the
    /// staker, signed by the pool.
    pub fn process_stake(
        pool: &mut LSTPool,
        position: &mut StakerInfo,
        caller: &Caller,
        accounts: &TokenAccounts,
        amount: u64,
        now: i64,
    ) -> (r: Result<Vec<LedgerCall>, LSTError>)
        ensures
            agrees(
                r,
                *old(pool),
                *old(position),
                *final(pool),
                *final(position),
                spec_stake(old(pool), old(position), caller, accounts, amount, now),
            ),
            old(position).well_formed() ==> final(position).well_formed(),
    {
        if !(caller.is_signer && caller.key == position.owner) {
            return Err(LSTError::InvalidAuthority);
        }
        if pool.exchange_rate == 0 {
            return Err(LSTError::ExchangeRateError);
        }
        let minted: u64 = match to_derivative(amount, pool.exchange_rate) {
            Some(minted) => minted,
            None => {
                return Err(LSTError::AmountOverflow);
            },
        };
        let total: u64 = match pool.total_staked.checked_add(amount) {
            Some(total) => total,
            None => {
                return Err(LSTError::AmountOverflow);
            },
        };
        let staked: u64 = match position.staked_amount.checked_add(amount) {
            Some(staked) => staked,
            None => {
                return Err(LSTError::AmountOverflow);
            },
        };
        let calls = vec![
            LedgerCall::Transfer {
                source: accounts.caller_soul,
                destination: accounts.pool_soul,
                authority: caller.key,
                amount,
                signer: None,
            },
            LedgerCall::MintTo {
                mint: pool.lst_mint,
                destination: accounts.caller_lst,
                authority: accounts.pool,
                amount: minted,
                signer: Some(DelegatedSigner::for_account(accounts.pool)),
            },
        ];
        pool.total_staked = total;
        position.staked_amount = staked;
        position.last_stake_time = now;
        Ok(calls)
    }

    /// Records a withdrawal of `amount` that unlocks `cooldown` seconds from
    /// now. A request already pending is replaced.
    pub fn process_request_unstake(
        position: &mut StakerInfo,
        caller: &Caller,
        amount: u64,
        now: i64,
        cooldown: u64,
    ) -> (r: Result<(), LSTError>)
        ensures
            match spec_request_unstake(old(position), caller, amount, now, cooldown) {
                Ok(requested) => r is Ok && *final(position) == requested,
                Err(e) => r == Err::<(), LSTError>(e) && *final(position) == *old(position),
            },
            old(position).well_formed() ==> final(position).well_formed(),
    {
        if !(caller.is_signer && caller.key == position.owner) {
            return Err(LSTError::InvalidAuthority);
        }
        if amount > position.staked_amount {
            return Err(LSTError::InsufficientFunds);
        }
        let unlock_time: i64 = match now.checked_add_unsigned(cooldown) {
            Some(unlock_time) => unlock_time,
            None => {
                return Err(LSTError::AmountOverflow);
            },
        };
        position.unstake_request = Some(UnstakeRequest { amount, request_time: now, unlock_time });
        Ok(())
    }

    /// Carries out the pending withdrawal once its cooldown has passed: burns
    /// the derivative tokens that the requested amount is worth, pays
    /// `floor(amount * exchange_rate / 1e9)` of the base asset out of the
    /// pool, takes the amount off the pool's and the position's principal and
    /// clears the request.
    pub fn process_execute_unstake(
        pool: &mut LSTPool,
        position: &mut StakerInfo,
        caller: &Caller,
        accounts: &TokenAccounts,
        now: i64,
    ) -> (r: Result<Vec<LedgerCall>, LSTError>)
        ensures
            agrees(
                r,
                *old(pool),
                *old(position),
                *final(pool),
                *final(position),
                spec_execute_unstake(old(pool), old(position), caller, accounts, now),
            ),
            old(position).well_formed() ==> final(position).well_formed(),
    {
        if !(caller.is_signer && caller.key == position.owner) {
            return Err(LSTError::InvalidAuthority);
        }
        if !position.can_unstake(now) {
            return Err(LSTError::UnstakeRequestNotReady);
        }
        let amount: u64 = match position.unstake_request {
            Some(request) => request.amount,
            None => {
                return Err(LSTError::UnstakeRequestNotReady);
            },
        };
        if amount > position.staked_amount {
            return Err(LSTError::InvalidUnstakeRequest);
        }
        if amount > pool.total_staked {
            return Err(LSTError::InsufficientFunds);
        }
        if pool.exchange_rate == 0 {
            return Err(LSTError::ExchangeRateError);
        }
        let payout: u64 = match to_base(amount, pool.exchange_rate) {
            Some(payout) => payout,
            None => {
                return Err(LSTError::AmountOverflow);
            },
        };
        let burned: u64 = match to_derivative(amount, pool.exchange_rate) {
            Some(burned) => burned,
            None => {
                return Err(LSTError::AmountOverflow);
            },
        };
        let calls = vec![
            LedgerCall::Burn {
                account: accounts.caller_lst,
                mint: pool.lst_mint,
                authority: caller.key,
                amount: burned,
                signer: None,
            },
            LedgerCall::Transfer {
                source: accounts.pool_soul,
                destination: accounts.caller_soul,
                authority: accounts.pool,
                amount: payout,
                signer: Some(DelegatedSigner::for_account(accounts.pool)),
            },
        ];
        pool.total_staked = pool.total_staked - amount;
        position.staked_amount = position.staked_amount - amount;
        position.unstake_request = None;
        Ok(calls)
    }

    /// Pays the rewards that the position may claim out of the pool's reserve
    /// and adds them to the position's debt.
    pub fn process_claim_rewards(
        pool: &LSTPool,
        position: &mut StakerInfo,
        caller: &Caller,
        accounts: &TokenAccounts,
        now: i64,
    ) -> (r: Result<Vec<LedgerCall>, LSTError>)
        ensures
            agrees(
                r,
                *pool,
                *old(position),
                *pool,
                *final(position),
                spec_claim_rewards(pool, old(position), caller, accounts, now),
            ),
            old(position).well_formed() ==> final(position).well_formed(),
    {
        if !(caller.is_signer && caller.key == position.owner) {
            return Err(LSTError::InvalidAuthority);
        }
        let pending: u64 = match pool.calculate_rewards(position, now) {
            Ok(pending) => pending,
            Err(_) => {
                return Err(LSTError::AmountOverflow);
            },
        };
        if pending == 0 {
            return Err(LSTError::NoRewardsToHarvest);
        }
        let calls = vec![
            LedgerCall::Transfer {
                source: accounts.pool_rewards,
                destination: accounts.caller_soul,
                authority: accounts.pool,
                amount: pending,
                signer: Some(DelegatedSigner::for_account(accounts.pool)),
            },
        ];
        position.rewards_debt = position.rewards_debt + pending;
        Ok(calls)
    }

    /// Sets the pool's fee rate, if a new one is given.
    pub fn process_update_pool(pool: &mut LSTPool, caller: &Caller, new_fee_rate: Option<u64>) -> (r:
        Result<(), LSTError>)
        ensures
            match spec_update_pool(old(pool), caller, new_fee_rate) {
                Ok(updated) => r is Ok && *final(pool) == updated,
                Err(e) => r == Err::<(), LSTError>(e) && *final(pool) == *old(pool),
            },
            old(pool).well_formed() ==> final(pool).well_formed(),
    {
        if !(caller.is_signer && caller.key == pool.authority) {
            return Err(LSTError::InvalidAuthority);
        }
        match new_fee_rate {
            Some(rate) => {
                if rate > MAX_FEE_RATE {
                    return Err(LSTError::InvalidFeeRate);
                }
                pool.fee_rate = rate;
            },
            None => {},
        }
        Ok(())
    }

    /// Moves `amount` of the pooled base asset to the authority, past the
    /// stakers' claims. The pool's record stays as it is.
    pub fn process_emergency_withdraw(
        pool: &LSTPool,
        caller: &Caller,
        accounts: &TokenAccounts,
        amount: u64,
    ) -> (r: Result<Vec<LedgerCall>, LSTError>)
        ensures
            match spec_emergency_withdraw(pool, caller, accounts, amount) {
                Ok(calls) => r is Ok && r->Ok_0@ == calls,
                Err(e) => r == Err::<Vec<LedgerCall>, LSTError>(e),
            },
    {
        if !(caller.is_signer && caller.key == pool.authority) {
            return Err(LSTError::InvalidAuthority);
        }
        Ok(
            vec![
                LedgerCall::Transfer {
                    source: accounts.pool_soul,
                    destination: accounts.caller_soul,
                    authority: accounts.pool,
                    amount,
                    signer: Some(DelegatedSigner::for_account(accounts.pool)),
                },
            ],
        )
    }
}

} // verus!
