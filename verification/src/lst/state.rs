//! The pool record, the staker's position and the arithmetic on them.

use vstd::prelude::*;
use crate::address::Address;
use crate::fixed_point::{mul_div, mul_div_floor, SCALE};
use crate::lst::instruction::LSTError;

verus! {

/// The highest fee rate a pool may carry: ten percent of the scale.
pub const MAX_FEE_RATE: u64 = 100_000_000;

/// The number of seconds in a year of 365 days.
pub const SECONDS_PER_YEAR: u64 = 31_536_000;

/// The divisor of the reward formula: seconds per year times one hundred
/// percent.
pub const REWARD_DIVISOR: u64 = SECONDS_PER_YEAR * 100;

/// The pool-wide record of a staking pool.
#[derive(Clone, Copy, Debug)]
pub struct LSTPool {
    pub is_initialized: bool,
    /// Who may change the configuration or withdraw in an emergency.
    pub authority: Address,
    /// The ledger of the base asset.
    pub soul_mint: Address,
    /// The ledger of the derivative asset.
    pub lst_mint: Address,
    /// The principal of all stakers that the pool holds.
    pub total_staked: u64,
    /// Base asset per derivative token, scaled by one billion.
    pub exchange_rate: u64,
    /// Reserved for a share-based reward model; no handler reads it.
    pub rewards_per_token: u64,
    /// The time of the last reward-bearing event.
    pub last_update_time: i64,
    pub pool_type: LSTType,
    /// The fee per unit, scaled by one billion.
    pub fee_rate: u64,
}

/// The kind of pool, which selects its annual reward rate.
#[derive(Clone, Copy, Debug, PartialEq, Eq, Structural)]
pub enum LSTType {
    Air,
    Forest,
    Land,
    Water,
    Ocean,
    Wildlife,
    Energy,
    Life,
    Sanctuary,
    PES,
    PPP,
    SSS,
}

/// One staker's position in one pool.
#[derive(Clone, Copy, Debug)]
pub struct StakerInfo {
    pub owner: Address,
    /// The principal currently staked.
    pub staked_amount: u64,
    /// The rewards already paid out, taken off every later accrual.
    pub rewards_debt: u64,
    pub last_stake_time: i64,
    /// The pending withdrawal, if one was requested.
    pub unstake_request: Option<UnstakeRequest>,
}

/// A withdrawal that waits for its cooldown to pass.
#[derive(Clone, Copy, Debug, PartialEq, Eq, Structural)]
pub struct UnstakeRequest {
    pub amount: u64,
    pub request_time: i64,
    pub unlock_time: i64,
}

impl LSTType {
    /// The annual reward rate of a pool of this kind, in percent.
    pub open spec fn spec_annual_rate(self) -> int {
        match self {
            LSTType::Forest => 15,
            LSTType::Water => 12,
            LSTType::Energy => 10,
            _ => 8,
        }
    }

    /// The annual reward rate of a pool of this kind, in percent.
    pub fn annual_rate(&self) -> (r: u64)
        ensures
            r == self.spec_annual_rate(),
    {
        match self {
            LSTType::Forest => 15,
            LSTType::Water => 12,
            LSTType::Energy => 10,
            _ => 8,
        }
    }
}

/// The rewards that `staked` units earn at `rate` percent a year over
/// `time_delta` seconds, rounded down.
pub open spec fn accrued_rewards(staked: int, rate: int, time_delta: int) -> int {
    (staked * rate * time_delta) / (REWARD_DIVISOR as int)
}

/// The exchange rate that backs `total_staked` units of principal and
/// `total_rewards` units of rewards with the derivative tokens issued for the
/// principal alone.
pub open spec fn rate_after_rewards(total_staked: int, total_rewards: int) -> int
    recommends
        total_staked > 0,
{
    ((total_staked + total_rewards) * (SCALE as int)) / total_staked
}

impl LSTPool {
    /// The size of the stored record in bytes.
    pub const LEN: usize = 138;

    /// A pool is well formed when its fee rate respects the cap.
    pub open spec fn well_formed(&self) -> bool {
        self.fee_rate <= MAX_FEE_RATE
    }

    /// Whether the pool is well formed.
    pub fn is_well_formed(&self) -> (r: bool)
        ensures
            r == self.well_formed(),
    {
        self.fee_rate <= MAX_FEE_RATE
    }

    /// The rewards accrued on a position since the pool's last update,
    /// before the position's debt is taken off.
    pub open spec fn spec_gross_rewards(&self, staker: &StakerInfo, current_time: i64) -> int {
        if staker.staked_amount == 0 || current_time <= self.last_update_time {
            0
        } else {
            accrued_rewards(
                staker.staked_amount as int,
                self.pool_type.spec_annual_rate(),
                current_time - self.last_update_time,
            )
        }
    }

    /// The rewards a position may claim at `current_time`: what accrued, less
    /// what was already paid, and never below zero.
    pub open spec fn spec_pending_rewards(&self, staker: &StakerInfo, current_time: i64) -> int {
        let gross = self.spec_gross_rewards(staker, current_time);
        if gross <= staker.rewards_debt {
            0
        } else {
            gross - staker.rewards_debt
        }
    }

    /// The rewards a position may claim at `current_time`.
    ///
    /// Fails with `AmountOverflow` exactly when the accrued rewards do not
    /// fit in 64 bits.
    pub fn calculate_rewards(&self, staker: &StakerInfo, current_time: i64) -> (r: Result<
        u64,
        LSTError,
    >)
        ensures
            r is Ok <==> self.spec_gross_rewards(staker, current_time) <= u64::MAX,
            r is Ok ==> r->Ok_0 == self.spec_pending_rewards(staker, current_time),
            r is Err ==> r->Err_0 == LSTError::AmountOverflow,
    {
        if staker.staked_amount == 0 || current_time <= self.last_update_time {
            return Ok(0);
        }
        let time_delta: u128 = ((current_time as i128) - (self.last_update_time as i128)) as u128;
        let rate: u64 = self.pool_type.annual_rate();
        let weighted: u128 = (staker.staked_amount as u128) * (rate as u128);
        proof {
            lemma_accrual_bounds(staker.staked_amount as int, rate as int, time_delta as int);
        }
        match weighted.checked_mul(time_delta) {
            None => Err(LSTError::AmountOverflow),
            Some(product) => {
                let gross: u128 = product / (REWARD_DIVISOR as u128);
                if gross > u64::MAX as u128 {
                    Err(LSTError::AmountOverflow)
                } else {
                    Ok((gross as u64).saturating_sub(staker.rewards_debt))
                }
            },
        }
    }

    /// Recomputes the exchange rate from the rewards the pool has earned in
    /// all: `(total_staked + total_rewards) * 1e9 / total_staked`, rounded
    /// down. A pool with nothing staked keeps its rate.
    ///
    /// Fails with `AmountOverflow`, and changes nothing, exactly when the new
    /// rate does not fit in 64 bits.
    pub fn update_exchange_rate(&mut self, total_rewards: u64) -> (r: Result<(), LSTError>)
        ensures
            r is Ok <==> (old(self).total_staked == 0 || rate_after_rewards(
                old(self).total_staked as int,
                total_rewards as int,
            ) <= u64::MAX),
            r is Err ==> r->Err_0 == LSTError::AmountOverflow && *final(self) == *old(self),
            r is Ok && old(self).total_staked == 0 ==> *final(self) == *old(self),
            r is Ok && old(self).total_staked > 0 ==> *final(self) == (LSTPool {
                exchange_rate: rate_after_rewards(
                    old(self).total_staked as int,
                    total_rewards as int,
                ) as u64,
                ..*old(self)
            }),
    {
        if self.total_staked == 0 {
            return Ok(());
        }
        let new_total: u128 = (self.total_staked as u128) + (total_rewards as u128);
        let scaled: u128 = new_total * (SCALE as u128);
        let rate: u128 = scaled / (self.total_staked as u128);
        if rate > u64::MAX as u128 {
            Err(LSTError::AmountOverflow)
        } else {
            self.exchange_rate = rate as u64;
            Ok(())
        }
    }

    /// The fee on `amount` at the pool's fee rate:
    /// `floor(amount * fee_rate / 1e9)`.
    ///
    /// No handler deducts this fee: staking and unstaking move the full
    /// amounts, and a host that charges the fee does so on its own account.
    pub fn calculate_fee(&self, amount: u64) -> (fee: u64)
        requires
            self.well_formed(),
        ensures
            fee == mul_div_floor(amount as int, self.fee_rate as int, SCALE as int),
            fee <= amount,
    {
        proof {
            lemma_fee_bounded(amount as int, self.fee_rate as int);
        }
        match mul_div(amount, self.fee_rate, SCALE) {
            Some(fee) => fee,
            None => 0,
        }
    }
}

impl StakerInfo {
    /// The size of the stored record in bytes.
    pub const LEN: usize = 81;

    /// A position is well formed when a pending withdrawal asks for no more
    /// than is staked.
    pub open spec fn well_formed(&self) -> bool {
        self.unstake_request matches Some(request) ==> request.amount <= self.staked_amount
    }

    /// Whether the position is well formed.
    pub fn is_well_formed(&self) -> (r: bool)
        ensures
            r == self.well_formed(),
    {
        match self.unstake_request {
            Some(request) => request.amount <= self.staked_amount,
            None => true,
        }
    }

    /// Whether a withdrawal is pending and its cooldown has passed.
    pub open spec fn spec_can_unstake(&self, current_time: i64) -> bool {
        self.unstake_request matches Some(request) && current_time >= request.unlock_time
    }

    /// Whether a withdrawal is pending and its cooldown has passed.
    pub fn can_unstake(&self, current_time: i64) -> (r: bool)
        ensures
            r == self.spec_can_unstake(current_time),
    {
        match &self.unstake_request {
            Some(request) => current_time >= request.unlock_time,
            None => false,
        }
    }

    /// The position of an owner who has not staked yet.
    pub fn new(owner: Address) -> (r: StakerInfo)
        ensures
            r == (StakerInfo {
                owner,
                staked_amount: 0,
                rewards_debt: 0,
                last_stake_time: 0,
                unstake_request: None,
            }),
            r.well_formed(),
    {
        StakerInfo {
            owner,
            staked_amount: 0,
            rewards_debt: 0,
            last_stake_time: 0,
            unstake_request: None,
        }
    }
}

/// Successive updates of the exchange rate never lower it while the principal
/// stays and the rewards earned in all do not shrink; and no update takes the
/// rate below 1:1.
pub proof fn lemma_exchange_rate_non_decreasing(total_staked: u64, earlier: u64, later: u64)
    requires
        total_staked > 0,
        earlier <= later,
    ensures
        SCALE <= rate_after_rewards(total_staked as int, earlier as int),
        rate_after_rewards(total_staked as int, earlier as int) <= rate_after_rewards(
            total_staked as int,
            later as int,
        ),
{
    let staked = total_staked as int;
    let scale = SCALE as int;
    assert((staked + earlier) * scale <= (staked + later) * scale) by (nonlinear_arith)
        requires
            earlier <= later,
            scale > 0,
    ;
    assert(scale * staked <= (staked + earlier) * scale) by (nonlinear_arith)
        requires
            earlier >= 0,
            scale > 0,
    ;
    vstd::arithmetic::div_mod::lemma_div_is_ordered(
        (staked + earlier) * scale,
        (staked + later) * scale,
        staked,
    );
    vstd::arithmetic::div_mod::lemma_div_is_ordered(
        scale * staked,
        (staked + earlier) * scale,
        staked,
    );
    vstd::arithmetic::div_mod::lemma_div_multiples_vanish(scale, staked);
}

/// The weighted stake fits the double-width intermediate, and a product with
/// the elapsed time that leaves it stands for rewards beyond 64 bits.
proof fn lemma_accrual_bounds(staked: int, rate: int, time_delta: int)
    requires
        0 <= staked <= u64::MAX,
        0 <= rate <= 15,
        0 <= time_delta,
    ensures
        0 <= staked * rate <= 15 * u64::MAX,
        0 <= staked * rate * time_delta,
        staked * rate * time_delta > u128::MAX ==> accrued_rewards(staked, rate, time_delta)
            > u64::MAX,
{
    assert(0 <= staked * rate <= 15 * u64::MAX) by (nonlinear_arith)
        requires
            0 <= staked <= u64::MAX,
            0 <= rate <= 15,
    ;
    assert(0 <= staked * rate * time_delta) by (nonlinear_arith)
        requires
            0 <= staked * rate,
            0 <= time_delta,
    ;
}

/// A fee at a rate within the cap never exceeds the amount it is taken on.
proof fn lemma_fee_bounded(amount: int, fee_rate: int)
    requires
        0 <= amount <= u64::MAX,
        0 <= fee_rate <= MAX_FEE_RATE,
    ensures
        0 <= mul_div_floor(amount, fee_rate, SCALE as int) <= amount,
{
    assert(0 <= amount * fee_rate <= amount * 100_000_000) by (nonlinear_arith)
        requires
            0 <= amount,
            0 <= fee_rate <= 100_000_000,
    ;
}

} // verus!
