//! The record of the token contract.

use vstd::prelude::*;
use crate::address::Address;

verus! {

/// The token as the contract stores it.
#[derive(Clone, Copy, Debug, Eq)]
pub struct SoulToken {
    pub is_initialized: bool,
    pub mint_authority: Address,
    pub supply: u64,
}

impl Default for SoulToken {
    /// A token that is not initialized: no authority, no supply.
    fn default() -> (r: SoulToken)
        ensures
            r == (SoulToken {
                is_initialized: false,
                mint_authority: Address::spec_zero(),
                supply: 0,
            }),
    {
        SoulToken { is_initialized: false, mint_authority: Address::zero(), supply: 0 }
    }
}

impl PartialEq for SoulToken {
    /// Two tokens are equal when all their fields agree.
    fn eq(&self, other: &SoulToken) -> (r: bool) {
        self.is_initialized == other.is_initialized && self.mint_authority == other.mint_authority
            && self.supply == other.supply
    }
}

impl vstd::std_specs::cmp::PartialEqSpecImpl for SoulToken {
    open spec fn obeys_eq_spec() -> bool {
        true
    }

    open spec fn eq_spec(&self, other: &SoulToken) -> bool {
        self.is_initialized == other.is_initialized && self.mint_authority@ == other.mint_authority@
            && self.supply == other.supply
    }
}

} // verus!
