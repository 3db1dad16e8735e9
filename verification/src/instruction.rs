//! The instructions of the base token.

use vstd::prelude::*;
use vstd::bytes::{spec_u64_from_le_bytes, spec_u64_to_le_bytes};
use vstd::slice::slice_subrange;
use crate::address::Address;
use crate::codec::{decode_u64, encode_u64};
use crate::error::SOuLError;
use crate::ledger::{writable, AccountRef, LedgerInstruction};

verus! {

/// One instruction of the base token with its payload.
#[derive(Clone, Copy, Debug, PartialEq, Eq, Structural)]
pub enum SOuLInstruction {
    /// Create the base token. Signed by its creator.
    InitializeSOuL { total_supply: u64 },
    /// Create a derivative token of the numbered kind. Signed by its creator.
    InitializeLST { token_type: u8, total_supply: u64 },
    /// Move tokens between accounts. Signed by the owner of the source.
    Transfer { amount: u64 },
    /// Issue new tokens. Signed by the mint authority.
    Mint { amount: u64 },
    /// Destroy tokens. Signed by their owner.
    Burn { amount: u64 },
}

/// The address of the system program, from
/// `solana_program::system_program::id`.
///
/// Believed of it: all 32 bytes of that address are zero.
#[verifier::external_body]
fn system_program() -> (r: Address)
    ensures
        r == Address::spec_zero(),
{
    Address { bytes: solana_program::system_program::id().to_bytes() }
}

impl SOuLInstruction {
    /// The instruction that `data` encodes: one byte that selects the
    /// instruction, then its payload with nothing after it. A supply or an
    /// amount is eight bytes, least significant first; the kind of a
    /// derivative token is one byte before its supply.
    pub open spec fn spec_unpack(data: Seq<u8>) -> Option<SOuLInstruction> {
        if data.len() == 9 && data[0] == 0 {
            Some(
                SOuLInstruction::InitializeSOuL {
                    total_supply: spec_u64_from_le_bytes(data.subrange(1, 9)),
                },
            )
        } else if data.len() == 10 && data[0] == 1 {
            Some(
                SOuLInstruction::InitializeLST {
                    token_type: data[1],
                    total_supply: spec_u64_from_le_bytes(data.subrange(2, 10)),
                },
            )
        } else if data.len() == 9 && data[0] == 2 {
            Some(SOuLInstruction::Transfer { amount: spec_u64_from_le_bytes(data.subrange(1, 9)) })
        } else if data.len() == 9 && data[0] == 3 {
            Some(SOuLInstruction::Mint { amount: spec_u64_from_le_bytes(data.subrange(1, 9)) })
        } else if data.len() == 9 && data[0] == 4 {
            Some(SOuLInstruction::Burn { amount: spec_u64_from_le_bytes(data.subrange(1, 9)) })
        } else {
            None
        }
    }

    /// The bytes that encode this instruction.
    pub open spec fn spec_pack(self) -> Seq<u8> {
        match self {
            SOuLInstruction::InitializeSOuL { total_supply } => seq![0u8] + spec_u64_to_le_bytes(
                total_supply,
            ),
            SOuLInstruction::InitializeLST { token_type, total_supply } => seq![1u8, token_type]
                + spec_u64_to_le_bytes(total_supply),
            SOuLInstruction::Transfer { amount } => seq![2u8] + spec_u64_to_le_bytes(amount),
            SOuLInstruction::Mint { amount } => seq![3u8] + spec_u64_to_le_bytes(amount),
            SOuLInstruction::Burn { amount } => seq![4u8] + spec_u64_to_le_bytes(amount),
        }
    }

    /// Decodes an instruction. Every malformed encoding fails with
    /// `InvalidInstruction`.
    pub fn unpack(data: &[u8]) -> (r: Result<SOuLInstruction, SOuLError>)
        ensures
            match r {
                Ok(instruction) => SOuLInstruction::spec_unpack(data@) == Some(instruction),
                Err(e) => SOuLInstruction::spec_unpack(data@) is None && e
                    == SOuLError::InvalidInstruction,
            },
    {
        let n: usize = data.len();
        if n == 0 {
            return Err(SOuLError::InvalidInstruction);
        }
        let tag: u8 = data[0];
        if tag == 1 {
            if n < 2 {
                return Err(SOuLError::InvalidInstruction);
            }
            let token_type: u8 = data[1];
            return match decode_u64(slice_subrange(data, 2, n)) {
                Some(total_supply) => {
                    assert(data@.subrange(2, n as int) == data@.subrange(2, 10));
                    Ok(SOuLInstruction::InitializeLST { token_type, total_supply })
                },
                None => Err(SOuLError::InvalidInstruction),
            };
        }
        if tag > 4 {
            return Err(SOuLError::InvalidInstruction);
        }
        match decode_u64(slice_subrange(data, 1, n)) {
            Some(value) => {
                assert(data@.subrange(1, n as int) == data@.subrange(1, 9));
                Ok(
                    if tag == 0 {
                        SOuLInstruction::InitializeSOuL { total_supply: value }
                    } else if tag == 2 {
                        SOuLInstruction::Transfer { amount: value }
                    } else if tag == 3 {
                        SOuLInstruction::Mint { amount: value }
                    } else {
                        SOuLInstruction::Burn { amount: value }
                    },
                )
            },
            None => Err(SOuLError::InvalidInstruction),
        }
    }

    /// Encodes this instruction.
    pub fn pack(&self) -> (r: Vec<u8>)
        ensures
            r@ == self.spec_pack(),
    {
        let mut out: Vec<u8> = Vec::new();
        let value: u64 = match self {
            SOuLInstruction::InitializeSOuL { total_supply } => {
                out.push(0);
                *total_supply
            },
            SOuLInstruction::InitializeLST { token_type, total_supply } => {
                out.push(1);
                out.push(*token_type);
                *total_supply
            },
            SOuLInstruction::Transfer { amount } => {
                out.push(2);
                *amount
            },
            SOuLInstruction::Mint { amount } => {
                out.push(3);
                *amount
            },
            SOuLInstruction::Burn { amount } => {
                out.push(4);
                *amount
            },
        };
        let mut tail = encode_u64(value);
        out.append(&mut tail);
        assert(out@ =~= self.spec_pack());
        out
    }

    /// Decoding what was encoded gives the instruction back.
    pub proof fn lemma_unpack_pack(instruction: SOuLInstruction)
        ensures
            SOuLInstruction::spec_unpack(instruction.spec_pack()) == Some(instruction),
    {
        vstd::bytes::lemma_auto_spec_u64_to_from_le_bytes();
        let data = instruction.spec_pack();
        match instruction {
            SOuLInstruction::InitializeLST { token_type, total_supply } => {
                assert(data.subrange(2, 10) =~= spec_u64_to_le_bytes(total_supply));
            },
            SOuLInstruction::InitializeSOuL { total_supply } => {
                assert(data.subrange(1, 9) =~= spec_u64_to_le_bytes(total_supply));
            },
            SOuLInstruction::Transfer { amount } => {
                assert(data.subrange(1, 9) =~= spec_u64_to_le_bytes(amount));
            },
            SOuLInstruction::Mint { amount } => {
                assert(data.subrange(1, 9) =~= spec_u64_to_le_bytes(amount));
            },
            SOuLInstruction::Burn { amount } => {
                assert(data.subrange(1, 9) =~= spec_u64_to_le_bytes(amount));
            },
        }
    }

    /// The instruction that creates the base token with `total_supply`: for
    /// the program at `program_id`, signed by `initializer`, writing the
    /// record at `token_account`, and naming the system program.
    pub fn initialize_soul(
        program_id: &Address,
        initializer: &Address,
        token_account: &Address,
        total_supply: u64,
    ) -> (r: Result<LedgerInstruction, SOuLError>)
        ensures
            r is Ok,
            r->Ok_0.program_id == *program_id,
            r->Ok_0.accounts@ == seq![
                AccountRef { address: *initializer, is_signer: true, is_writable: true },
                writable(*token_account),
                AccountRef { address: Address::spec_zero(), is_signer: false, is_writable: false },
            ],
            r->Ok_0.data@ == (SOuLInstruction::InitializeSOuL { total_supply }).spec_pack(),
    {
        let data = (SOuLInstruction::InitializeSOuL { total_supply }).pack();
        let accounts = vec![
            AccountRef { address: *initializer, is_signer: true, is_writable: true },
            AccountRef { address: *token_account, is_signer: false, is_writable: true },
            AccountRef { address: system_program(), is_signer: false, is_writable: false },
        ];
        Ok(LedgerInstruction { program_id: *program_id, accounts, data })
    }
}

} // verus!
