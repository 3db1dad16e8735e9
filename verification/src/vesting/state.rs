//! The vesting schedule and what it has released.

use vstd::prelude::*;
use crate::address::Address;

verus! {

/// One vesting schedule.
#[derive(Clone, Copy, Debug)]
pub struct VestingSchedule {
    pub is_initialized: bool,
    pub beneficiary: Address,
    pub start_timestamp: i64,
    pub end_timestamp: i64,
    pub total_amount: u64,
    pub released_amount: u64,
    pub vesting_type: VestingType,
}

/// The kind of schedule, which fixes its cliff and its duration.
#[derive(Clone, Copy, Debug, PartialEq, Eq, Structural)]
pub enum VestingType {
    /// Three years with a cliff of one year.
    Team,
    /// Three years with a cliff of one year.
    Advisor,
    /// Eighteen months with a cliff of six months.
    PrivateSale,
    /// Twelve months with a cliff of three months.
    PublicSale,
    /// No cliff; lasts from the schedule's start to its end.
    Ecosystem,
}

impl VestingSchedule {
    /// The size of the stored record in bytes.
    pub const LEN: usize = 66;

    /// The seconds that must pass after the start before anything vests.
    pub open spec fn spec_cliff_duration(&self) -> int {
        match self.vesting_type {
            VestingType::Team | VestingType::Advisor => 31_536_000,
            VestingType::PrivateSale => 15_768_000,
            VestingType::PublicSale => 7_884_000,
            VestingType::Ecosystem => 0,
        }
    }

    /// The seconds over which the whole amount vests.
    pub open spec fn spec_total_duration(&self) -> int {
        match self.vesting_type {
            VestingType::Team | VestingType::Advisor => 94_608_000,
            VestingType::PrivateSale => 47_304_000,
            VestingType::PublicSale => 31_536_000,
            VestingType::Ecosystem => self.end_timestamp - self.start_timestamp,
        }
    }

    /// A schedule is well formed when it ends after it starts and lasts no
    /// longer than its kind's duration.
    pub open spec fn well_formed(&self) -> bool {
        &&& self.start_timestamp < self.end_timestamp
        &&& self.end_timestamp - self.start_timestamp <= self.spec_total_duration()
    }

    /// The amount that has vested at `current_timestamp`: nothing before the
    /// cliff, then the share of the total that the elapsed time is of the
    /// duration, rounded down; time stops at the schedule's end.
    pub open spec fn spec_vested_amount(&self, current_timestamp: i64) -> int {
        if current_timestamp < self.start_timestamp + self.spec_cliff_duration() {
            0
        } else {
            let until = if current_timestamp <= self.end_timestamp {
                current_timestamp
            } else {
                self.end_timestamp
            };
            (self.total_amount * (until - self.start_timestamp)) / self.spec_total_duration()
        }
    }

    /// The amount that may be released at `current_timestamp`: what has
    /// vested, less what was released, and never below zero.
    pub open spec fn spec_releasable_amount(&self, current_timestamp: i64) -> int {
        let vested = self.spec_vested_amount(current_timestamp);
        if vested <= self.released_amount {
            0
        } else {
            vested - self.released_amount
        }
    }

    /// Whether the schedule is well formed.
    pub fn is_well_formed(&self) -> (r: bool)
        ensures
            r == self.well_formed(),
    {
        if self.start_timestamp >= self.end_timestamp {
            return false;
        }
        let length: i128 = (self.end_timestamp as i128) - (self.start_timestamp as i128);
        match self.vesting_type {
            VestingType::Team | VestingType::Advisor => length <= 94_608_000,
            VestingType::PrivateSale => length <= 47_304_000,
            VestingType::PublicSale => length <= 31_536_000,
            VestingType::Ecosystem => true,
        }
    }

    /// The amount that may be released at `current_timestamp`.
    pub fn calculate_releasable_amount(&self, current_timestamp: i64) -> (r: u64)
        requires
            self.well_formed(),
        ensures
            r == self.spec_releasable_amount(current_timestamp),
            r + self.released_amount <= u64::MAX,
            self.released_amount <= self.total_amount ==> r + self.released_amount
                <= self.total_amount,
    {
        let start: i128 = self.start_timestamp as i128;
        let end: i128 = self.end_timestamp as i128;
        let now: i128 = current_timestamp as i128;
        let (cliff_duration, total_duration): (i128, i128) = match self.vesting_type {
            VestingType::Team | VestingType::Advisor => (31_536_000, 94_608_000),
            VestingType::PrivateSale => (15_768_000, 47_304_000),
            VestingType::PublicSale => (7_884_000, 31_536_000),
            VestingType::Ecosystem => (0, end - start),
        };
        if now < start + cliff_duration {
            return 0;
        }
        let until: i128 = if now <= end {
            now
        } else {
            end
        };
        let elapsed: u128 = (until - start) as u128;
        let duration: u128 = total_duration as u128;
        proof {
            lemma_vested_bounded(self.total_amount as int, elapsed as int, duration as int);
        }
        let vested: u128 = (self.total_amount as u128) * elapsed / duration;
        let vested: u64 = vested as u64;
        if vested <= self.released_amount {
            0
        } else {
            vested - self.released_amount
        }
    }
}

/// The share of an amount that a part of the duration stands for does not
/// exceed the amount.
proof fn lemma_vested_bounded(total: int, elapsed: int, duration: int)
    requires
        0 <= total <= u64::MAX,
        0 <= elapsed <= duration,
        0 < duration <= u64::MAX,
    ensures
        0 <= total * elapsed <= u128::MAX,
        0 <= (total * elapsed) / duration <= total,
{
    assert(0 <= total * elapsed <= total * duration) by (nonlinear_arith)
        requires
            0 <= total,
            0 <= elapsed <= duration,
    ;
    assert(total * duration <= u64::MAX * u64::MAX) by (nonlinear_arith)
        requires
            0 <= total <= u64::MAX,
            0 < duration <= u64::MAX,
    ;
    vstd::arithmetic::div_mod::lemma_div_is_ordered(total * elapsed, total * duration, duration);
    vstd::arithmetic::div_mod::lemma_div_multiples_vanish(total, duration);
    assert(total * duration == duration * total) by (nonlinear_arith);
    vstd::arithmetic::div_mod::lemma_div_pos_is_pos(total * elapsed, duration);
}

} // verus!
