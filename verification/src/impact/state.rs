//! The records of impact reporting and the scores computed from them.

use vstd::prelude::*;
use crate::address::Address;

verus! {

/// The measured impact of a site.
#[derive(Clone, Copy, Debug)]
pub struct ImpactMetrics {
    pub is_initialized: bool,
    pub authority: Address,
    pub last_update: i64,
    /// In square meters.
    pub forest_area: u64,
    /// In kilograms.
    pub carbon_offset: u64,
    /// In liters.
    pub water_saved: u64,
    /// From 0 to 1000.
    pub biodiversity_score: u16,
    /// In kilowatt hours.
    pub energy_saved: u64,
    /// In kilograms.
    pub waste_recycled: u64,
    pub impact_score: u64,
}

/// A registered verifier of reports.
#[derive(Clone, Copy, Debug)]
pub struct VerifierState {
    pub is_initialized: bool,
    pub authority: Address,
    pub verifier_pubkey: Address,
    /// From 0 to 1000.
    pub reputation_score: u16,
    pub verified_reports: u64,
    pub stake_amount: u64,
}

/// A report on the impact measured at one place.
#[derive(Clone, Copy, Debug)]
pub struct ImpactReport {
    pub timestamp: i64,
    pub location: GeoLocation,
    pub metrics: ImpactMetrics,
    pub verifier: Address,
    pub verification_status: VerificationStatus,
    /// The hash of the supporting documents.
    pub proof_hash: [u8; 32],
}

/// A place on earth.
#[derive(Clone, Copy, Debug, PartialEq, Eq, Structural)]
pub struct GeoLocation {
    /// In millionths of a degree.
    pub latitude: i64,
    /// In millionths of a degree.
    pub longitude: i64,
    /// In meters.
    pub altitude: i32,
}

/// How far the verification of a report has come.
#[derive(Clone, Copy, Debug, PartialEq, Eq, Structural)]
pub enum VerificationStatus {
    Pending,
    Verified,
    Rejected,
    Disputed,
}

/// A dispute of a report.
#[derive(Clone, Copy, Debug)]
pub struct DisputeCase {
    pub report_id: Address,
    pub challenger: Address,
    pub stake_amount: u64,
    /// The hash of the evidence.
    pub evidence_hash: [u8; 32],
    pub status: DisputeStatus,
    pub resolution_timestamp: Option<i64>,
}

/// How far a dispute has come.
#[derive(Clone, Copy, Debug, PartialEq, Eq, Structural)]
pub enum DisputeStatus {
    Active,
    ResolvedInFavorOfReport,
    ResolvedInFavorOfChallenger,
    Dismissed,
}

/// The cap that every measured quantity is cut at before it is weighted.
pub const METRIC_CAP: u64 = 1_000_000;

/// The score of the lowest of a verifier's reputation, and of the highest.
pub const BASE_REPUTATION: u16 = 500;

/// The highest reputation a verifier can have.
pub const MAX_REPUTATION: u16 = 1000;

/// A measured quantity cut at the cap, weighted, on a scale of a hundred per
/// percent of weight.
pub open spec fn weighted_metric(value: int, weight: int) -> int {
    ((if value <= METRIC_CAP {
        value
    } else {
        METRIC_CAP as int
    }) * weight) / 10_000
}

impl ImpactMetrics {
    /// The size of the stored record in bytes.
    pub const LEN: usize = 91;

    /// The impact score: forest area weighs 30, carbon offset 25, water saved
    /// 20, the biodiversity score 15, energy saved 5 and waste recycled 5.
    pub open spec fn spec_impact_score(&self) -> int {
        weighted_metric(self.forest_area as int, 30) + weighted_metric(
            self.carbon_offset as int,
            25,
        ) + weighted_metric(self.water_saved as int, 20) + (self.biodiversity_score * 15) / 10
            + weighted_metric(self.energy_saved as int, 5) + weighted_metric(
            self.waste_recycled as int,
            5,
        )
    }

    /// The impact score of these metrics.
    pub fn calculate_impact_score(&self) -> (r: u64)
        ensures
            r == self.spec_impact_score(),
    {
        let forest_score: u64 = capped(self.forest_area) * 30 / 10_000;
        let carbon_score: u64 = capped(self.carbon_offset) * 25 / 10_000;
        let water_score: u64 = capped(self.water_saved) * 20 / 10_000;
        let biodiversity_score: u64 = (self.biodiversity_score as u64) * 15 / 10;
        let energy_score: u64 = capped(self.energy_saved) * 5 / 10_000;
        let waste_score: u64 = capped(self.waste_recycled) * 5 / 10_000;
        forest_score + carbon_score + water_score + biodiversity_score + energy_score
            + waste_score
    }
}

/// The value, cut at the cap of a measured quantity.
fn capped(value: u64) -> (r: u64)
    ensures
        r == if value <= METRIC_CAP {
            value
        } else {
            METRIC_CAP
        },
{
    if value <= METRIC_CAP {
        value
    } else {
        METRIC_CAP
    }
}

impl VerifierState {
    /// The size of the stored record in bytes.
    pub const LEN: usize = 83;

    /// The reputation after the given record: 500, plus 10 for each
    /// successful verification and 20 for each dispute won, cut at the
    /// largest 16-bit number; less 30 for each dispute lost, not below zero;
    /// and at most 1000.
    pub open spec fn spec_reputation(
        successful_verifications: u64,
        disputes_won: u64,
        disputes_lost: u64,
    ) -> int {
        let positive = successful_verifications * 10 + disputes_won * 20;
        let negative = disputes_lost * 30;
        let raised = if 500 + positive <= u16::MAX {
            500 + positive
        } else {
            u16::MAX as int
        };
        let lowered = if raised <= negative {
            0
        } else {
            raised - negative
        };
        if lowered <= 1000 {
            lowered
        } else {
            1000
        }
    }

    /// Sets the reputation from the verifier's record. The counts must be
    /// small enough for their weighted sums to fit in 16 bits.
    pub fn update_reputation(
        &mut self,
        successful_verifications: u64,
        disputes_won: u64,
        disputes_lost: u64,
    )
        requires
            successful_verifications * 10 + disputes_won * 20 <= u16::MAX,
            disputes_lost * 30 <= u16::MAX,
        ensures
            *final(self) == (VerifierState {
                reputation_score: VerifierState::spec_reputation(
                    successful_verifications,
                    disputes_won,
                    disputes_lost,
                ) as u16,
                ..*old(self)
            }),
            final(self).reputation_score <= MAX_REPUTATION,
    {
        let positive_score: u16 = (successful_verifications as u16) * 10 + (disputes_won as u16)
            * 20;
        let negative_score: u16 = (disputes_lost as u16) * 30;
        let raised: u16 = BASE_REPUTATION.saturating_add(positive_score);
        let lowered: u16 = raised.saturating_sub(negative_score);
        self.reputation_score = if lowered <= MAX_REPUTATION {
            lowered
        } else {
            MAX_REPUTATION
        };
    }
}

} // verus!
