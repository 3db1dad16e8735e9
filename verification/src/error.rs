//! The errors of the base token's instructions.

use vstd::prelude::*;

verus! {

/// Why an instruction of the base token was refused.
#[derive(Clone, Copy, Debug, PartialEq, Eq, Structural)]
pub enum SOuLError {
    InvalidInstruction,
    NotRentExempt,
    ExpectedAmountMismatch,
    AmountOverflow,
    InvalidTokenType,
    InvalidAuthority,
    InsufficientFunds,
    AlreadyInitialized,
}

impl SOuLError {
    /// The number under which the ledger reports this error: its place in
    /// the list of errors, from zero.
    pub open spec fn spec_code(self) -> u32 {
        match self {
            SOuLError::InvalidInstruction => 0,
            SOuLError::NotRentExempt => 1,
            SOuLError::ExpectedAmountMismatch => 2,
            SOuLError::AmountOverflow => 3,
            SOuLError::InvalidTokenType => 4,
            SOuLError::InvalidAuthority => 5,
            SOuLError::InsufficientFunds => 6,
            SOuLError::AlreadyInitialized => 7,
        }
    }

    /// The number under which the ledger reports this error.
    pub fn code(&self) -> (r: u32)
        ensures
            r == self.spec_code(),
    {
        match self {
            SOuLError::InvalidInstruction => 0,
            SOuLError::NotRentExempt => 1,
            SOuLError::ExpectedAmountMismatch => 2,
            SOuLError::AmountOverflow => 3,
            SOuLError::InvalidTokenType => 4,
            SOuLError::InvalidAuthority => 5,
            SOuLError::InsufficientFunds => 6,
            SOuLError::AlreadyInitialized => 7,
        }
    }

    /// The error that the ledger reports under `code`, if there is one.
    pub fn from_code(code: u32) -> (r: Option<SOuLError>)
        ensures
            r is Some <==> code < 8,
            r is Some ==> r->0.spec_code() == code,
    {
        match code {
            0 => Some(SOuLError::InvalidInstruction),
            1 => Some(SOuLError::NotRentExempt),
            2 => Some(SOuLError::ExpectedAmountMismatch),
            3 => Some(SOuLError::AmountOverflow),
            4 => Some(SOuLError::InvalidTokenType),
            5 => Some(SOuLError::InvalidAuthority),
            6 => Some(SOuLError::InsufficientFunds),
            7 => Some(SOuLError::AlreadyInitialized),
            _ => None,
        }
    }

    /// The text that describes this error.
    pub open spec fn spec_message(self) -> Seq<char> {
        match self {
            SOuLError::InvalidInstruction => "Invalid Instruction"@,
            SOuLError::NotRentExempt => "Not Rent Exempt"@,
            SOuLError::ExpectedAmountMismatch => "Expected Amount Mismatch"@,
            SOuLError::AmountOverflow => "Amount Overflow"@,
            SOuLError::InvalidTokenType => "Invalid Token Type"@,
            SOuLError::InvalidAuthority => "Invalid Authority"@,
            SOuLError::InsufficientFunds => "Insufficient Funds"@,
            SOuLError::AlreadyInitialized => "Token Already Initialized"@,
        }
    }

    /// The text that describes this error.
    pub fn message(&self) -> (r: &'static str)
        ensures
            r@ == self.spec_message(),
    {
        match self {
            SOuLError::InvalidInstruction => "Invalid Instruction",
            SOuLError::NotRentExempt => "Not Rent Exempt",
            SOuLError::ExpectedAmountMismatch => "Expected Amount Mismatch",
            SOuLError::AmountOverflow => "Amount Overflow",
            SOuLError::InvalidTokenType => "Invalid Token Type",
            SOuLError::InvalidAuthority => "Invalid Authority",
            SOuLError::InsufficientFunds => "Insufficient Funds",
            SOuLError::AlreadyInitialized => "Token Already Initialized",
        }
    }
}

} // verus!
