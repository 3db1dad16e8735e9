//! The records of the base token and of the derivative tokens.

use vstd::prelude::*;
use crate::address::Address;

verus! {

/// The record of the base token.
#[derive(Clone, Copy, Debug)]
pub struct SOuLToken {
    pub is_initialized: bool,
    pub mint_authority: Address,
    pub total_supply: u64,
    pub decimals: u8,
}

/// The record of one derivative token.
#[derive(Clone, Copy, Debug)]
pub struct LSTToken {
    pub is_initialized: bool,
    pub mint_authority: Address,
    pub total_supply: u64,
    pub decimals: u8,
    pub token_type: LSTTokenType,
}

/// The kinds of derivative token.
#[derive(Clone, Copy, Debug, PartialEq, Eq, Structural)]
pub enum LSTTokenType {
    AirSOuL,
    ForestSOuL,
    LandSOuL,
    WaterSOuL,
    OceanSOuL,
    WildlifeSOuL,
    EnergySOuL,
    LifeSOuL,
    SanctuarySOuL,
    PESSOuL,
    PPPSOuL,
    SSSSOuL,
}

impl SOuLToken {
    /// The size of the stored record in bytes.
    pub const LEN: usize = 42;

    /// Whether the record holds a token.
    pub fn is_initialized(&self) -> (r: bool)
        ensures
            r == self.is_initialized,
    {
        self.is_initialized
    }
}

impl LSTTokenType {
    /// The kind of derivative token that an instruction numbers `index`.
    pub open spec fn spec_from_index(index: u8) -> Option<LSTTokenType> {
        match index {
            0 => Some(LSTTokenType::AirSOuL),
            1 => Some(LSTTokenType::ForestSOuL),
            2 => Some(LSTTokenType::LandSOuL),
            3 => Some(LSTTokenType::WaterSOuL),
            4 => Some(LSTTokenType::OceanSOuL),
            5 => Some(LSTTokenType::WildlifeSOuL),
            6 => Some(LSTTokenType::EnergySOuL),
            7 => Some(LSTTokenType::LifeSOuL),
            8 => Some(LSTTokenType::SanctuarySOuL),
            9 => Some(LSTTokenType::PESSOuL),
            10 => Some(LSTTokenType::PPPSOuL),
            11 => Some(LSTTokenType::SSSSOuL),
            _ => None,
        }
    }

    /// The kind of derivative token that an instruction numbers `index`, if
    /// there is one.
    pub fn from_index(index: u8) -> (r: Option<LSTTokenType>)
        ensures
            r == LSTTokenType::spec_from_index(index),
    {
        match index {
            0 => Some(LSTTokenType::AirSOuL),
            1 => Some(LSTTokenType::ForestSOuL),
            2 => Some(LSTTokenType::LandSOuL),
            3 => Some(LSTTokenType::WaterSOuL),
            4 => Some(LSTTokenType::OceanSOuL),
            5 => Some(LSTTokenType::WildlifeSOuL),
            6 => Some(LSTTokenType::EnergySOuL),
            7 => Some(LSTTokenType::LifeSOuL),
            8 => Some(LSTTokenType::SanctuarySOuL),
            9 => Some(LSTTokenType::PESSOuL),
            10 => Some(LSTTokenType::PPPSOuL),
            11 => Some(LSTTokenType::SSSSOuL),
            _ => None,
        }
    }
}

} // verus!
