//! The operations a caller may submit to a staking pool, and the errors they
//! fail with.

use vstd::prelude::*;
use vstd::bytes::{spec_u64_from_le_bytes, spec_u64_to_le_bytes};
use vstd::slice::slice_subrange;
use crate::codec::{decode_u64, encode_u64};
use crate::lst::state::LSTType;

verus! {

/// One tagged operation with its payload.
#[derive(Clone, Copy, Debug, PartialEq, Eq, Structural)]
pub enum LSTInstruction {
    /// Create a pool of the given type. Signed by the pool's creator.
    InitializePool { pool_type: LSTType, fee_rate: u64 },
    /// Deposit base tokens and receive derivative tokens. Signed by the staker.
    Stake { amount: u64 },
    /// Ask to withdraw principal after the cooldown. Signed by the staker.
    RequestUnstake { amount: u64 },
    /// Carry out a withdrawal whose cooldown has passed. Signed by the staker.
    ExecuteUnstake,
    /// Collect the rewards accrued so far. Signed by the staker.
    ClaimRewards,
    /// Change the pool's parameters. Signed by the pool authority.
    UpdatePool { new_fee_rate: Option<u64> },
    /// Move pooled base tokens to the authority. Signed by the pool authority.
    EmergencyWithdraw { amount: u64 },
}

/// Why an operation on a staking pool was refused.
#[derive(Clone, Copy, Debug, PartialEq, Eq, Structural)]
pub enum LSTError {
    /// The operation's encoding is malformed.
    InvalidInstruction,
    /// The backing storage lacks the reserve it must hold.
    NotRentExempt,
    AlreadyInitialized,
    InvalidAuthority,
    InvalidPoolType,
    InvalidAmount,
    InsufficientFunds,
    InvalidUnstakeRequest,
    UnstakeRequestNotReady,
    NoRewardsToHarvest,
    PoolPaused,
    InvalidFeeRate,
    /// The exchange rate is zero and cannot divide.
    ExchangeRateError,
    /// A computed quantity does not fit in 64 bits.
    AmountOverflow,
}

impl LSTType {
    /// The kind of pool that the wire format numbers `index`.
    pub open spec fn spec_from_index(index: u8) -> Option<LSTType> {
        match index {
            0 => Some(LSTType::Air),
            1 => Some(LSTType::Forest),
            2 => Some(LSTType::Land),
            3 => Some(LSTType::Water),
            4 => Some(LSTType::Ocean),
            5 => Some(LSTType::Wildlife),
            6 => Some(LSTType::Energy),
            7 => Some(LSTType::Life),
            8 => Some(LSTType::Sanctuary),
            9 => Some(LSTType::PES),
            10 => Some(LSTType::PPP),
            11 => Some(LSTType::SSS),
            _ => None,
        }
    }

    /// The number that the wire format gives this kind of pool.
    pub open spec fn spec_index(self) -> u8 {
        match self {
            LSTType::Air => 0,
            LSTType::Forest => 1,
            LSTType::Land => 2,
            LSTType::Water => 3,
            LSTType::Ocean => 4,
            LSTType::Wildlife => 5,
            LSTType::Energy => 6,
            LSTType::Life => 7,
            LSTType::Sanctuary => 8,
            LSTType::PES => 9,
            LSTType::PPP => 10,
            LSTType::SSS => 11,
        }
    }

    /// The kind of pool that the wire format numbers `index`, if there is
    /// one.
    pub fn from_index(index: u8) -> (r: Option<LSTType>)
        ensures
            r == LSTType::spec_from_index(index),
    {
        match index {
            0 => Some(LSTType::Air),
            1 => Some(LSTType::Forest),
            2 => Some(LSTType::Land),
            3 => Some(LSTType::Water),
            4 => Some(LSTType::Ocean),
            5 => Some(LSTType::Wildlife),
            6 => Some(LSTType::Energy),
            7 => Some(LSTType::Life),
            8 => Some(LSTType::Sanctuary),
            9 => Some(LSTType::PES),
            10 => Some(LSTType::PPP),
            11 => Some(LSTType::SSS),
            _ => None,
        }
    }

    /// The number that the wire format gives this kind of pool.
    pub fn index(&self) -> (r: u8)
        ensures
            r == self.spec_index(),
            LSTType::spec_from_index(r) == Some(*self),
    {
        match self {
            LSTType::Air => 0,
            LSTType::Forest => 1,
            LSTType::Land => 2,
            LSTType::Water => 3,
            LSTType::Ocean => 4,
            LSTType::Wildlife => 5,
            LSTType::Energy => 6,
            LSTType::Life => 7,
            LSTType::Sanctuary => 8,
            LSTType::PES => 9,
            LSTType::PPP => 10,
            LSTType::SSS => 11,
        }
    }
}

impl LSTInstruction {
    /// The operation that `data` encodes: one byte that selects the
    /// operation, then its payload with nothing after it. An amount or a rate
    /// is eight bytes, least significant first; a pool type is one byte; an
    /// optional rate is a byte 0, or a byte 1 and the rate.
    pub open spec fn spec_unpack(data: Seq<u8>) -> Option<LSTInstruction> {
        if data.len() == 0 {
            None
        } else if data[0] == 0 {
            if data.len() == 10 && LSTType::spec_from_index(data[1]) is Some {
                Some(
                    LSTInstruction::InitializePool {
                        pool_type: LSTType::spec_from_index(data[1])->0,
                        fee_rate: spec_u64_from_le_bytes(data.subrange(2, 10)),
                    },
                )
            } else {
                None
            }
        } else if data[0] == 1 {
            if data.len() == 9 {
                Some(LSTInstruction::Stake { amount: spec_u64_from_le_bytes(data.subrange(1, 9)) })
            } else {
                None
            }
        } else if data[0] == 2 {
            if data.len() == 9 {
                Some(
                    LSTInstruction::RequestUnstake {
                        amount: spec_u64_from_le_bytes(data.subrange(1, 9)),
                    },
                )
            } else {
                None
            }
        } else if data[0] == 3 {
            if data.len() == 1 {
                Some(LSTInstruction::ExecuteUnstake)
            } else {
                None
            }
        } else if data[0] == 4 {
            if data.len() == 1 {
                Some(LSTInstruction::ClaimRewards)
            } else {
                None
            }
        } else if data[0] == 5 {
            if data.len() == 2 && data[1] == 0 {
                Some(LSTInstruction::UpdatePool { new_fee_rate: None })
            } else if data.len() == 10 && data[1] == 1 {
                Some(
                    LSTInstruction::UpdatePool {
                        new_fee_rate: Some(spec_u64_from_le_bytes(data.subrange(2, 10))),
                    },
                )
            } else {
                None
            }
        } else if data[0] == 6 {
            if data.len() == 9 {
                Some(
                    LSTInstruction::EmergencyWithdraw {
                        amount: spec_u64_from_le_bytes(data.subrange(1, 9)),
                    },
                )
            } else {
                None
            }
        } else {
            None
        }
    }

    /// The bytes that encode this operation.
    pub open spec fn spec_pack(self) -> Seq<u8> {
        match self {
            LSTInstruction::InitializePool { pool_type, fee_rate } => seq![
                0u8,
                pool_type.spec_index(),
            ] + spec_u64_to_le_bytes(fee_rate),
            LSTInstruction::Stake { amount } => seq![1u8] + spec_u64_to_le_bytes(amount),
            LSTInstruction::RequestUnstake { amount } => seq![2u8] + spec_u64_to_le_bytes(amount),
            LSTInstruction::ExecuteUnstake => seq![3u8],
            LSTInstruction::ClaimRewards => seq![4u8],
            LSTInstruction::UpdatePool { new_fee_rate: None } => seq![5u8, 0u8],
            LSTInstruction::UpdatePool { new_fee_rate: Some(rate) } => seq![5u8, 1u8]
                + spec_u64_to_le_bytes(rate),
            LSTInstruction::EmergencyWithdraw { amount } => seq![6u8] + spec_u64_to_le_bytes(
                amount,
            ),
        }
    }

    /// Decodes an operation. Every malformed encoding fails with
    /// `InvalidInstruction`.
    pub fn unpack(data: &[u8]) -> (r: Result<LSTInstruction, LSTError>)
        ensures
            match r {
                Ok(instruction) => LSTInstruction::spec_unpack(data@) == Some(instruction),
                Err(e) => LSTInstruction::spec_unpack(data@) is None && e
                    == LSTError::InvalidInstruction,
            },
    {
        let n: usize = data.len();
        if n == 0 {
            return Err(LSTError::InvalidInstruction);
        }
        let tag: u8 = data[0];
        if tag == 3 || tag == 4 {
            if n != 1 {
                return Err(LSTError::InvalidInstruction);
            }
            return Ok(
                if tag == 3 {
                    LSTInstruction::ExecuteUnstake
                } else {
                    LSTInstruction::ClaimRewards
                },
            );
        }
        if tag == 1 || tag == 2 || tag == 6 {
            let amount: u64 = match decode_u64(slice_subrange(data, 1, n)) {
                Some(amount) => amount,
                None => {
                    return Err(LSTError::InvalidInstruction);
                },
            };
            assert(data@.subrange(1, n as int) == data@.subrange(1, 9));
            return Ok(
                if tag == 1 {
                    LSTInstruction::Stake { amount }
                } else if tag == 2 {
                    LSTInstruction::RequestUnstake { amount }
                } else {
                    LSTInstruction::EmergencyWithdraw { amount }
                },
            );
        }
        if tag == 0 {
            if n < 2 {
                return Err(LSTError::InvalidInstruction);
            }
            let pool_type: LSTType = match LSTType::from_index(data[1]) {
                Some(pool_type) => pool_type,
                None => {
                    return Err(LSTError::InvalidInstruction);
                },
            };
            let fee_rate: u64 = match decode_u64(slice_subrange(data, 2, n)) {
                Some(fee_rate) => fee_rate,
                None => {
                    return Err(LSTError::InvalidInstruction);
                },
            };
            assert(data@.subrange(2, n as int) == data@.subrange(2, 10));
            return Ok(LSTInstruction::InitializePool { pool_type, fee_rate });
        }
        if tag == 5 {
            if n < 2 {
                return Err(LSTError::InvalidInstruction);
            }
            if data[1] == 0 {
                if n != 2 {
                    return Err(LSTError::InvalidInstruction);
                }
                return Ok(LSTInstruction::UpdatePool { new_fee_rate: None });
            }
            if data[1] != 1 {
                return Err(LSTError::InvalidInstruction);
            }
            let rate: u64 = match decode_u64(slice_subrange(data, 2, n)) {
                Some(rate) => rate,
                None => {
                    return Err(LSTError::InvalidInstruction);
                },
            };
            assert(data@.subrange(2, n as int) == data@.subrange(2, 10));
            return Ok(LSTInstruction::UpdatePool { new_fee_rate: Some(rate) });
        }
        Err(LSTError::InvalidInstruction)
    }

    /// Encodes this operation.
    pub fn pack(&self) -> (r: Vec<u8>)
        ensures
            r@ == self.spec_pack(),
    {
        let mut out: Vec<u8> = Vec::new();
        match self {
            LSTInstruction::InitializePool { pool_type, fee_rate } => {
                out.push(0);
                out.push(pool_type.index());
                let mut tail = encode_u64(*fee_rate);
                out.append(&mut tail);
            },
            LSTInstruction::Stake { amount } => {
                out.push(1);
                let mut tail = encode_u64(*amount);
                out.append(&mut tail);
            },
            LSTInstruction::RequestUnstake { amount } => {
                out.push(2);
                let mut tail = encode_u64(*amount);
                out.append(&mut tail);
            },
            LSTInstruction::ExecuteUnstake => {
                out.push(3);
            },
            LSTInstruction::ClaimRewards => {
                out.push(4);
            },
            LSTInstruction::UpdatePool { new_fee_rate } => {
                out.push(5);
                match new_fee_rate {
                    None => {
                        out.push(0);
                    },
                    Some(rate) => {
                        out.push(1);
                        let mut tail = encode_u64(*rate);
                        out.append(&mut tail);
                    },
                }
            },
            LSTInstruction::EmergencyWithdraw { amount } => {
                out.push(6);
                let mut tail = encode_u64(*amount);
                out.append(&mut tail);
            },
        }
        assert(out@ =~= self.spec_pack());
        out
    }

    /// Decoding what was encoded gives the operation back.
    pub proof fn lemma_unpack_pack(instruction: LSTInstruction)
        ensures
            LSTInstruction::spec_unpack(instruction.spec_pack()) == Some(instruction),
    {
        vstd::bytes::lemma_auto_spec_u64_to_from_le_bytes();
        let data = instruction.spec_pack();
        match instruction {
            LSTInstruction::InitializePool { pool_type, fee_rate } => {
                assert(data.subrange(2, 10) =~= spec_u64_to_le_bytes(fee_rate));
            },
            LSTInstruction::Stake { amount } => {
                assert(data.subrange(1, 9) =~= spec_u64_to_le_bytes(amount));
            },
            LSTInstruction::RequestUnstake { amount } => {
                assert(data.subrange(1, 9) =~= spec_u64_to_le_bytes(amount));
            },
            LSTInstruction::ExecuteUnstake => {},
            LSTInstruction::ClaimRewards => {},
            LSTInstruction::UpdatePool { new_fee_rate: None } => {},
            LSTInstruction::UpdatePool { new_fee_rate: Some(rate) } => {
                assert(data.subrange(2, 10) =~= spec_u64_to_le_bytes(rate));
            },
            LSTInstruction::EmergencyWithdraw { amount } => {
                assert(data.subrange(1, 9) =~= spec_u64_to_le_bytes(amount));
            },
        }
    }
}

} // verus!
