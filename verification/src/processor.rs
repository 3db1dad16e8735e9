//! The handlers of the base token's instructions.

use vstd::prelude::*;
use crate::address::Caller;
use crate::error::SOuLError;
use crate::instruction::SOuLInstruction;
use crate::state::{LSTToken, LSTTokenType, SOuLToken};

verus! {

/// The number of decimals of every token of the family.
pub const DECIMALS: u8 = 9;

/// The record that an instruction leaves to be stored, if any.
#[derive(Clone, Copy, Debug)]
pub enum TokenRecord {
    /// Nothing is stored.
    Unchanged,
    /// The base token's record.
    SOuL(SOuLToken),
    /// A derivative token's record.
    LST(LSTToken),
}

/// The account in place `index` of the list must be there and must have
/// signed: the error if it is not so.
pub open spec fn signer_error(accounts: Seq<Caller>, count: int, index: int) -> Option<SOuLError> {
    if accounts.len() < count {
        Some(SOuLError::InvalidInstruction)
    } else if !accounts[index].is_signer {
        Some(SOuLError::InvalidAuthority)
    } else {
        None
    }
}

/// Creating the base token, as a function of what the handler reads.
pub open spec fn spec_initialize_soul(
    accounts: Seq<Caller>,
    rent_exempt: bool,
    total_supply: u64,
) -> Result<SOuLToken, SOuLError> {
    match signer_error(accounts, 2, 0) {
        Some(e) => Err(e),
        None => if !rent_exempt {
            Err(SOuLError::NotRentExempt)
        } else {
            Ok(
                SOuLToken {
                    is_initialized: true,
                    mint_authority: accounts[0].key,
                    total_supply,
                    decimals: DECIMALS,
                },
            )
        },
    }
}

/// Creating a derivative token, as a function of what the handler reads.
pub open spec fn spec_initialize_lst(
    accounts: Seq<Caller>,
    token_type: u8,
    total_supply: u64,
) -> Result<LSTToken, SOuLError> {
    match signer_error(accounts, 2, 0) {
        Some(e) => Err(e),
        None => match LSTTokenType::spec_from_index(token_type) {
            None => Err(SOuLError::InvalidTokenType),
            Some(kind) => Ok(
                LSTToken {
                    is_initialized: true,
                    mint_authority: accounts[0].key,
                    total_supply,
                    decimals: DECIMALS,
                    token_type: kind,
                },
            ),
        },
    }
}

/// One instruction applied, as a function of what the host supplies.
pub open spec fn spec_process_instruction(
    accounts: Seq<Caller>,
    rent_exempt: bool,
    instruction: SOuLInstruction,
) -> Result<TokenRecord, SOuLError> {
    match instruction {
        SOuLInstruction::InitializeSOuL { total_supply } => match spec_initialize_soul(
            accounts,
            rent_exempt,
            total_supply,
        ) {
            Ok(token) => Ok(TokenRecord::SOuL(token)),
            Err(e) => Err(e),
        },
        SOuLInstruction::InitializeLST { token_type, total_supply } => match spec_initialize_lst(
            accounts,
            token_type,
            total_supply,
        ) {
            Ok(token) => Ok(TokenRecord::LST(token)),
            Err(e) => Err(e),
        },
        SOuLInstruction::Transfer { amount } => match signer_error(accounts, 3, 2) {
            Some(e) => Err(e),
            None => Ok(TokenRecord::Unchanged),
        },
        SOuLInstruction::Mint { amount } => match signer_error(accounts, 2, 0) {
            Some(e) => Err(e),
            None => Ok(TokenRecord::Unchanged),
        },
        SOuLInstruction::Burn { amount } => match signer_error(accounts, 2, 1) {
            Some(e) => Err(e),
            None => Ok(TokenRecord::Unchanged),
        },
    }
}

/// Checks that the list holds `count` accounts and that the one in place
/// `index` signed.
fn check_signer(accounts: &[Caller], count: usize, index: usize) -> (r: Result<(), SOuLError>)
    requires
        index < count,
    ensures
        match signer_error(accounts@, count as int, index as int) {
            Some(e) => r == Err::<(), SOuLError>(e),
            None => r is Ok,
        },
{
    if accounts.len() < count {
        return Err(SOuLError::InvalidInstruction);
    }
    if !accounts[index].is_signer {
        return Err(SOuLError::InvalidAuthority);
    }
    Ok(())
}

/// Applies one instruction of the base token. The accounts are those the
/// invocation lists, in its order.
pub fn process_instruction(
    accounts: &[Caller],
    rent_exempt: bool,
    instruction: SOuLInstruction,
) -> (r: Result<TokenRecord, SOuLError>)
    ensures
        r == spec_process_instruction(accounts@, rent_exempt, instruction),
{
    match instruction {
        SOuLInstruction::InitializeSOuL { total_supply } => {
            match process_initialize_soul(accounts, rent_exempt, total_supply) {
                Ok(token) => Ok(TokenRecord::SOuL(token)),
                Err(e) => Err(e),
            }
        },
        SOuLInstruction::InitializeLST { token_type, total_supply } => {
            match process_initialize_lst(accounts, token_type, total_supply) {
                Ok(token) => Ok(TokenRecord::LST(token)),
                Err(e) => Err(e),
            }
        },
        SOuLInstruction::Transfer { amount } => {
            match process_transfer(accounts, amount) {
                Ok(_) => Ok(TokenRecord::Unchanged),
                Err(e) => Err(e),
            }
        },
        SOuLInstruction::Mint { amount } => {
            match process_mint(accounts, amount) {
                Ok(_) => Ok(TokenRecord::Unchanged),
                Err(e) => Err(e),
            }
        },
        SOuLInstruction::Burn { amount } => {
            match process_burn(accounts, amount) {
                Ok(_) => Ok(TokenRecord::Unchanged),
                Err(e) => Err(e),
            }
        },
    }
}

/// Creates the base token: the first account is its creator and must have
/// signed, the second holds the record and must hold its reserve.
pub fn process_initialize_soul(accounts: &[Caller], rent_exempt: bool, total_supply: u64) -> (r:
    Result<SOuLToken, SOuLError>)
    ensures
        r == spec_initialize_soul(accounts@, rent_exempt, total_supply),
{
    match check_signer(accounts, 2, 0) {
        Err(e) => {
            return Err(e);
        },
        Ok(_) => {},
    }
    if !rent_exempt {
        return Err(SOuLError::NotRentExempt);
    }
    Ok(
        SOuLToken {
            is_initialized: true,
            mint_authority: accounts[0].key,
            total_supply,
            decimals: DECIMALS,
        },
    )
}

/// Creates a derivative token of the numbered kind: the first account is its
/// creator and must have signed, the second holds the record.
pub fn process_initialize_lst(accounts: &[Caller], token_type: u8, total_supply: u64) -> (r:
    Result<LSTToken, SOuLError>)
    ensures
        r == spec_initialize_lst(accounts@, token_type, total_supply),
{
    match check_signer(accounts, 2, 0) {
        Err(e) => {
            return Err(e);
        },
        Ok(_) => {},
    }
    match LSTTokenType::from_index(token_type) {
        None => Err(SOuLError::InvalidTokenType),
        Some(kind) => Ok(
            LSTToken {
                is_initialized: true,
                mint_authority: accounts[0].key,
                total_supply,
                decimals: DECIMALS,
                token_type: kind,
            },
        ),
    }
}

/// Admits a transfer: source, destination and authority are listed, and the
/// authority signed. Moving the tokens is the ledger's part.
pub fn process_transfer(accounts: &[Caller], amount: u64) -> (r: Result<(), SOuLError>)
    ensures
        match signer_error(accounts@, 3, 2) {
            Some(e) => r == Err::<(), SOuLError>(e),
            None => r is Ok,
        },
{
    check_signer(accounts, 3, 2)
}

/// Admits a mint: the mint authority and the token account are listed, and
/// the authority signed. Issuing the tokens is the ledger's part.
pub fn process_mint(accounts: &[Caller], amount: u64) -> (r: Result<(), SOuLError>)
    ensures
        match signer_error(accounts@, 2, 0) {
            Some(e) => r == Err::<(), SOuLError>(e),
            None => r is Ok,
        },
{
    check_signer(accounts, 2, 0)
}

/// Admits a burn: the token account and its authority are listed, and the
/// authority signed. Destroying the tokens is the ledger's part.
pub fn process_burn(accounts: &[Caller], amount: u64) -> (r: Result<(), SOuLError>)
    ensures
        match signer_error(accounts@, 2, 1) {
            Some(e) => r == Err::<(), SOuLError>(e),
            None => r is Ok,
        },
{
    check_signer(accounts, 2, 1)
}

} // verus!
