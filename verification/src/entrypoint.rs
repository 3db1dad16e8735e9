//! The entry of the base token's program.

use vstd::prelude::*;
use crate::address::Caller;
use crate::error::SOuLError;
use crate::instruction::SOuLInstruction;
use crate::processor::{spec_process_instruction, TokenRecord};

verus! {

/// Decodes one instruction of the base token and applies it. A malformed
/// encoding fails with `InvalidInstruction`.
pub fn process_instruction(accounts: &[Caller], rent_exempt: bool, instruction_data: &[u8]) -> (r:
    Result<TokenRecord, SOuLError>)
    ensures
        r == match SOuLInstruction::spec_unpack(instruction_data@) {
            Some(instruction) => spec_process_instruction(accounts@, rent_exempt, instruction),
            None => Err(SOuLError::InvalidInstruction),
        },
{
    match SOuLInstruction::unpack(instruction_data) {
        Ok(instruction) => crate::processor::process_instruction(
            accounts,
            rent_exempt,
            instruction,
        ),
        Err(e) => Err(e),
    }
}

} // verus!
