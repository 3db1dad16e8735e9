//! The wire form of the calls on the token ledger.
//!
//! The handlers of the pool decide which calls to make; this module turns
//! each into the instruction that the token program understands. The host
//! submits the instructions and reports whether they went through.

use vstd::prelude::*;
use vstd::bytes::spec_u64_to_le_bytes;
use solana_program::program_error::ProgramError;
use solana_program::program_pack::Pack;
use solana_program::pubkey::Pubkey;
use crate::address::Address;

verus! {

/// The error type of the ledger's own instruction builders.
#[verifier::external_type_specification]
#[verifier::external_body]
pub struct ExProgramError(ProgramError);

/// A delegated signing scope: the right to sign ledger calls in the name of
/// one record of this program. Only the handlers of this program make one.
#[derive(Clone, Copy, Debug)]
pub struct DelegatedSigner {
    account: Address,
}

impl DelegatedSigner {
    /// The signing scope of the record stored at `account`.
    pub closed spec fn spec_for(account: Address) -> DelegatedSigner {
        DelegatedSigner { account }
    }

    /// The record in whose name this scope signs.
    pub closed spec fn spec_account(&self) -> Address {
        self.account
    }

    pub(crate) fn for_account(account: Address) -> (r: DelegatedSigner)
        ensures
            r == DelegatedSigner::spec_for(account),
    {
        DelegatedSigner { account }
    }

    /// The record in whose name this scope signs.
    pub fn account(&self) -> (r: Address)
        ensures
            r == self.spec_account(),
    {
        self.account
    }

    /// A scope signs for the record it was made for, and for no other.
    pub proof fn lemma_scope(account: Address)
        ensures
            DelegatedSigner::spec_for(account).spec_account() == account,
    {
    }
}

/// One call on the token ledger.
#[derive(Clone, Copy, Debug)]
pub enum LedgerCall {
    /// Move `amount` from one token account to another.
    Transfer {
        source: Address,
        destination: Address,
        authority: Address,
        amount: u64,
        /// Present where a record of this program is the authority.
        signer: Option<DelegatedSigner>,
    },
    /// Issue `amount` new tokens of `mint` to a token account.
    MintTo {
        mint: Address,
        destination: Address,
        authority: Address,
        amount: u64,
        signer: Option<DelegatedSigner>,
    },
    /// Destroy `amount` tokens of `mint` held in a token account.
    Burn {
        account: Address,
        mint: Address,
        authority: Address,
        amount: u64,
        signer: Option<DelegatedSigner>,
    },
}

/// One account that an instruction refers to.
#[derive(Clone, Copy, Debug)]
pub struct AccountRef {
    pub address: Address,
    pub is_signer: bool,
    pub is_writable: bool,
}

/// An instruction for a program on the ledger.
#[derive(Clone, Debug)]
pub struct LedgerInstruction {
    pub program_id: Address,
    pub accounts: Vec<AccountRef>,
    pub data: Vec<u8>,
}

/// An instruction together with the signing scope it is submitted under,
/// where a record of this program is the authority of the call.
#[derive(Clone, Debug)]
pub struct Invocation {
    pub instruction: LedgerInstruction,
    pub signer: Option<DelegatedSigner>,
}

/// The identity of the token program.
pub open spec fn token_program_id() -> Seq<u8> {
    seq![
        6u8, 221, 246, 225, 215, 101, 161, 147, 217, 203, 225, 70, 206, 235, 121, 172, 28, 180,
        133, 237, 95, 91, 55, 145, 58, 140, 245, 133, 126, 255, 0, 169,
    ]
}

/// An account that the instruction writes and that need not sign.
pub open spec fn writable(address: Address) -> AccountRef {
    AccountRef { address, is_signer: false, is_writable: true }
}

/// An account that signs the instruction and is only read.
pub open spec fn signing(address: Address) -> AccountRef {
    AccountRef { address, is_signer: true, is_writable: false }
}

/// The accounts that a call refers to, in the order the token program
/// expects them.
pub open spec fn call_accounts(call: LedgerCall) -> Seq<AccountRef> {
    match call {
        LedgerCall::Transfer { source, destination, authority, .. } => seq![
            writable(source),
            writable(destination),
            signing(authority),
        ],
        LedgerCall::MintTo { mint, destination, authority, .. } => seq![
            writable(mint),
            writable(destination),
            signing(authority),
        ],
        LedgerCall::Burn { account, mint, authority, .. } => seq![
            writable(account),
            writable(mint),
            signing(authority),
        ],
    }
}

/// The payload of a call: the token program's number of the operation, then
/// the amount in eight bytes, least significant first.
pub open spec fn call_data(call: LedgerCall) -> Seq<u8> {
    match call {
        LedgerCall::Transfer { amount, .. } => seq![3u8] + spec_u64_to_le_bytes(amount),
        LedgerCall::MintTo { amount, .. } => seq![7u8] + spec_u64_to_le_bytes(amount),
        LedgerCall::Burn { amount, .. } => seq![8u8] + spec_u64_to_le_bytes(amount),
    }
}

/// The signing scope that a call carries, if any.
pub open spec fn call_signer(call: LedgerCall) -> Option<DelegatedSigner> {
    match call {
        LedgerCall::Transfer { signer, .. } => signer,
        LedgerCall::MintTo { signer, .. } => signer,
        LedgerCall::Burn { signer, .. } => signer,
    }
}

/// Whether `invocation` is the wire form of `call` for the token program.
pub open spec fn encodes(invocation: Invocation, call: LedgerCall) -> bool {
    &&& invocation.instruction.program_id@ == token_program_id()
    &&& invocation.instruction.accounts@ == call_accounts(call)
    &&& invocation.instruction.data@ == call_data(call)
    &&& invocation.signer == call_signer(call)
}

/// Builds a transfer with `spl_token::instruction::transfer`, with no
/// signers besides the authority.
///
/// Believed of it: it refuses every program but the token program; else the
/// instruction names that program, lists source and destination as writable
/// and the authority as signer, and carries the byte 3 and the amount.
#[verifier::external_body]
fn build_transfer(
    program: &Address,
    source: &Address,
    destination: &Address,
    authority: &Address,
    amount: u64,
) -> (r: Result<LedgerInstruction, ProgramError>)
    ensures
        r is Ok <==> program@ == token_program_id(),
        r is Ok ==> r->Ok_0.program_id == *program,
        r is Ok ==> r->Ok_0.accounts@ == seq![
            writable(*source),
            writable(*destination),
            signing(*authority),
        ],
        r is Ok ==> r->Ok_0.data@ == seq![3u8] + spec_u64_to_le_bytes(amount),
{
    let keys = [program, source, destination, authority].map(|a| Pubkey::new_from_array(a.bytes));
    let built =
        spl_token::instruction::transfer(&keys[0], &keys[1], &keys[2], &keys[3], &[], amount)?;
    let accounts = built.accounts.iter().map(|meta| AccountRef {
        address: Address { bytes: meta.pubkey.to_bytes() },
        is_signer: meta.is_signer,
        is_writable: meta.is_writable,
    });
    Ok(LedgerInstruction {
        program_id: Address { bytes: built.program_id.to_bytes() },
        accounts: accounts.collect(),
        data: built.data,
    })
}

/// Builds a mint with `spl_token::instruction::mint_to`, with no signers
/// besides the authority.
///
/// Believed of it: it refuses every program but the token program; else the
/// instruction names that program, lists mint and destination as writable
/// and the authority as signer, and carries the byte 7 and the amount.
#[verifier::external_body]
fn build_mint_to(
    program: &Address,
    mint: &Address,
    destination: &Address,
    authority: &Address,
    amount: u64,
) -> (r: Result<LedgerInstruction, ProgramError>)
    ensures
        r is Ok <==> program@ == token_program_id(),
        r is Ok ==> r->Ok_0.program_id == *program,
        r is Ok ==> r->Ok_0.accounts@ == seq![
            writable(*mint),
            writable(*destination),
            signing(*authority),
        ],
        r is Ok ==> r->Ok_0.data@ == seq![7u8] + spec_u64_to_le_bytes(amount),
{
    let keys = [program, mint, destination, authority].map(|a| Pubkey::new_from_array(a.bytes));
    let built =
        spl_token::instruction::mint_to(&keys[0], &keys[1], &keys[2], &keys[3], &[], amount)?;
    let accounts = built.accounts.iter().map(|meta| AccountRef {
        address: Address { bytes: meta.pubkey.to_bytes() },
        is_signer: meta.is_signer,
        is_writable: meta.is_writable,
    });
    Ok(LedgerInstruction {
        program_id: Address { bytes: built.program_id.to_bytes() },
        accounts: accounts.collect(),
        data: built.data,
    })
}

/// Builds a burn with `spl_token::instruction::burn`, with no signers
/// besides the authority.
///
/// Believed of it: it refuses every program but the token program; else the
/// instruction names that program, lists the token account and the mint as
/// writable and the authority as signer, and carries the byte 8 and the
/// amount.
#[verifier::external_body]
fn build_burn(
    program: &Address,
    account: &Address,
    mint: &Address,
    authority: &Address,
    amount: u64,
) -> (r: Result<LedgerInstruction, ProgramError>)
    ensures
        r is Ok <==> program@ == token_program_id(),
        r is Ok ==> r->Ok_0.program_id == *program,
        r is Ok ==> r->Ok_0.accounts@ == seq![
            writable(*account),
            writable(*mint),
            signing(*authority),
        ],
        r is Ok ==> r->Ok_0.data@ == seq![8u8] + spec_u64_to_le_bytes(amount),
{
    let keys = [program, account, mint, authority].map(|a| Pubkey::new_from_array(a.bytes));
    let built =
        spl_token::instruction::burn(&keys[0], &keys[1], &keys[2], &keys[3], &[], amount)?;
    let accounts = built.accounts.iter().map(|meta| AccountRef {
        address: Address { bytes: meta.pubkey.to_bytes() },
        is_signer: meta.is_signer,
        is_writable: meta.is_writable,
    });
    Ok(LedgerInstruction {
        program_id: Address { bytes: built.program_id.to_bytes() },
        accounts: accounts.collect(),
        data: built.data,
    })
}

/// The balance that the token program's encoding of a token account holds;
/// `None` where `data` is no such encoding of an account in use.
pub uninterp spec fn token_account_amount(data: Seq<u8>) -> Option<u64>;

/// Reads the balance of a token account with `Account::unpack` of the token
/// program's crate.
///
/// Believed of it: whether it succeeds, and the balance it then finds, depend
/// on the bytes alone.
#[verifier::external_body]
pub(crate) fn unpack_token_amount(data: &[u8]) -> (r: Option<u64>)
    ensures
        r == token_account_amount(data@),
{
    match spl_token::state::Account::unpack(data) {
        Ok(account) => Some(account.amount),
        Err(_) => None,
    }
}

/// The address of the token program.
pub fn token_program() -> (r: Address)
    ensures
        r@ == token_program_id(),
{
    let r = Address {
        bytes: [
            6, 221, 246, 225, 215, 101, 161, 147, 217, 203, 225, 70, 206, 235, 121, 172, 28, 180,
            133, 237, 95, 91, 55, 145, 58, 140, 245, 133, 126, 255, 0, 169,
        ],
    };
    assert(r@ =~= token_program_id());
    r
}

impl LedgerCall {
    /// The wire form of this call for the program at `program`: `None`
    /// exactly when `program` is not the token program.
    pub fn encode(&self, program: &Address) -> (r: Option<Invocation>)
        ensures
            r is Some <==> program@ == token_program_id(),
            r is Some ==> encodes(r->0, *self),
    {
        let (built, signer) = match self {
            LedgerCall::Transfer { source, destination, authority, amount, signer } => (
                build_transfer(program, source, destination, authority, *amount),
                *signer,
            ),
            LedgerCall::MintTo { mint, destination, authority, amount, signer } => (
                build_mint_to(program, mint, destination, authority, *amount),
                *signer,
            ),
            LedgerCall::Burn { account, mint, authority, amount, signer } => (
                build_burn(program, account, mint, authority, *amount),
                *signer,
            ),
        };
        match built {
            Ok(instruction) => Some(Invocation { instruction, signer }),
            Err(_) => None,
        }
    }
}

/// The wire forms of `calls`, in their order: `None` exactly when there is a
/// call to encode and `program` is not the token program.
pub fn encode_calls(calls: &Vec<LedgerCall>, program: &Address) -> (r: Option<Vec<Invocation>>)
    ensures
        r is Some <==> (calls@.len() == 0 || program@ == token_program_id()),
        r is Some ==> r->0@.len() == calls@.len() && forall|i: int|
            0 <= i < calls@.len() ==> encodes(#[trigger] r->0@[i], calls@[i]),
{
    let mut out: Vec<Invocation> = Vec::new();
    let mut i: usize = 0;
    while i < calls.len()
        invariant
            i <= calls@.len(),
            out@.len() == i,
            i > 0 ==> program@ == token_program_id(),
            forall|j: int| 0 <= j < i ==> encodes(#[trigger] out@[j], calls@[j]),
        decreases calls@.len() - i,
    {
        match calls[i].encode(program) {
            Some(invocation) => {
                out.push(invocation);
            },
            None => {
                return None;
            },
        }
        i += 1;
    }
    Some(out)
}

} // verus!
