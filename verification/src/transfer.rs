//! Construction and dispatch of the two value-moving instructions.
//!
//! A native-currency transfer and a fungible-token transfer are each built
//! as a host instruction and handed to the host for execution. Both accept a
//! signer-seed authorization: an empty seed list asks the host to require an
//! externally verified signature from the paying account, a non-empty one
//! asks it to re-derive the authority's key from the calling program's
//! identity plus the seeds, substituting for a signature. Either way the
//! host applies the transfer atomically or rejects it whole; a rejection is
//! surfaced unchanged as `TransferError::CpiFailure`.

use vstd::prelude::*;

use solana_program::account_info::AccountInfo;
use solana_program::instruction::AccountMeta;
use solana_program::instruction::Instruction;
use solana_program::program_error::ProgramError;
use solana_program::pubkey::Pubkey;

use crate::event::le_bytes8;
use crate::host::account_key_bytes;
use crate::host::account_pubkey;
use crate::host::pubkey_bytes;
use crate::host::pubkey_from_bytes;
use crate::ids::system_program_id_bytes;
use crate::ids::token_program_id_bytes;
use crate::ids::token_program_id_array;

verus! {

/// The token program's opcode byte selecting its transfer operation.
pub const TOKEN_TRANSFER_OPCODE: u8 = 3;

/// Failure of a dispatched value-moving call.
pub enum TransferError {
    /// The host rejected the dispatched instruction (insufficient balance,
    /// bad account ownership, signature or derivation mismatch); the host's
    /// own error is carried unchanged.
    CpiFailure(ProgramError),
}

/// Parameters of the token program's transfer instruction: the opcode byte
/// and the amount of minor units to move.
pub struct TransferTokenParams {
    pub instruction: u8,
    pub amount: u64,
}

impl TransferTokenParams {
    /// The wire form of the parameters: the opcode byte followed by the
    /// 8-byte little-endian amount.
    pub fn to_vec(&self) -> (r: Vec<u8>)
        ensures
            r@ == seq![self.instruction] + le_bytes8(self.amount),
    {
        let mut r: Vec<u8> = Vec::new();
        r.push(self.instruction);
        let amount_bytes = crate::event::encode_u64_le(self.amount);
        let mut i: usize = 0;
        while i < 8
            invariant
                i <= 8,
                amount_bytes@ == le_bytes8(self.amount),
                r@ == seq![self.instruction] + amount_bytes@.take(i as int),
            decreases 8 - i,
        {
            r.push(amount_bytes[i]);
            proof {
                assert(amount_bytes@.take(i as int).push(amount_bytes@[i as int])
                    =~= amount_bytes@.take(i as int + 1));
                assert((seq![self.instruction] + amount_bytes@.take(i as int)).push(
                    amount_bytes@[i as int])
                    =~= seq![self.instruction] + amount_bytes@.take(i as int + 1));
            }
            i += 1;
        }
        proof {
            assert(amount_bytes@.take(8) =~= amount_bytes@);
        }
        r
    }
}

/// The payload of a token transfer instruction for a given amount: opcode
/// `3`, then the amount as unsigned 64-bit little-endian. This layout is a
/// compatibility contract with the external token program.
pub open spec fn token_transfer_data(amount: u64) -> Seq<u8> {
    seq![TOKEN_TRANSFER_OPCODE] + le_bytes8(amount)
}

/// The payload of a native transfer instruction for a given amount: the
/// system program's transfer variant tag (`2` as unsigned 32-bit
/// little-endian), then the amount as unsigned 64-bit little-endian.
pub open spec fn native_transfer_data(amount: u64) -> Seq<u8> {
    seq![2u8, 0u8, 0u8, 0u8] + le_bytes8(amount)
}

/// Relies on `solana_program::system_instruction::transfer`: it builds the
/// system program's transfer instruction — program id all zeros, `from`
/// writable and signing, `to` writable only, and a bincode payload of the
/// `Transfer` variant tag (2, fixed-width little-endian) followed by the
/// little-endian amount.
#[verifier::external_body]
fn system_transfer_instruction(from: &Pubkey, to: &Pubkey, lamports: u64) -> (r: Instruction)
    ensures
        pubkey_bytes(r.program_id) == system_program_id_bytes(),
        r.accounts@.len() == 2,
        r.accounts@[0].pubkey == *from,
        r.accounts@[0].is_signer,
        r.accounts@[0].is_writable,
        r.accounts@[1].pubkey == *to,
        !r.accounts@[1].is_signer,
        r.accounts@[1].is_writable,
        r.data@ == native_transfer_data(lamports),
{
    solana_program::system_instruction::transfer(from, to, lamports)
}

/// Relies on `solana_program::program::invoke`: asks the host to execute
/// `instruction`, requiring externally verified signatures; the host may
/// accept or reject, so nothing is promised of the outcome.
#[verifier::external_body]
fn dispatch_pair<'a>(
    instruction: &Instruction,
    a: &AccountInfo<'a>,
    b: &AccountInfo<'a>,
) -> (r: Result<(), ProgramError>)
{
    solana_program::program::invoke(instruction, &[a.clone(), b.clone()])
}

/// Relies on `solana_program::program::invoke_signed`: asks the host to
/// execute `instruction`, re-deriving the signing authority from the calling
/// program's identity plus `signer_seeds`; the host may accept or reject, so
/// nothing is promised of the outcome.
#[verifier::external_body]
fn dispatch_signed_pair<'a>(
    instruction: &Instruction,
    a: &AccountInfo<'a>,
    b: &AccountInfo<'a>,
    signer_seeds: &[&[&[u8]]],
) -> (r: Result<(), ProgramError>)
{
    solana_program::program::invoke_signed(instruction, &[a.clone(), b.clone()], signer_seeds)
}

/// Relies on `solana_program::program::invoke`, as `dispatch_pair` does, for
/// an instruction touching three accounts.
#[verifier::external_body]
fn dispatch_triple<'a>(
    instruction: &Instruction,
    a: &AccountInfo<'a>,
    b: &AccountInfo<'a>,
    c: &AccountInfo<'a>,
) -> (r: Result<(), ProgramError>)
{
    solana_program::program::invoke(instruction, &[a.clone(), b.clone(), c.clone()])
}

/// Relies on `solana_program::program::invoke_signed`, as
/// `dispatch_signed_pair` does, for an instruction touching three accounts.
#[verifier::external_body]
fn dispatch_signed_triple<'a>(
    instruction: &Instruction,
    a: &AccountInfo<'a>,
    b: &AccountInfo<'a>,
    c: &AccountInfo<'a>,
    signer_seeds: &[&[&[u8]]],
) -> (r: Result<(), ProgramError>)
{
    solana_program::program::invoke_signed(
        instruction,
        &[a.clone(), b.clone(), c.clone()],
        signer_seeds,
    )
}

/// Maps the host's verdict on a dispatched instruction to this crate's
/// error type: acceptance stays acceptance, and a rejection is carried
/// unchanged inside `CpiFailure` — never retried, never rewritten.
pub fn cpi_result(hr: Result<(), ProgramError>) -> (r: Result<(), TransferError>)
    ensures
        hr is Ok ==> r is Ok,
        hr matches Err(e) ==> r == Err::<(), TransferError>(TransferError::CpiFailure(e)),
{
    match hr {
        Ok(()) => Ok(()),
        Err(e) => Err(TransferError::CpiFailure(e)),
    }
}

/// Builds the token program's transfer instruction: program id the token
/// program's identity; `from` and `to` writable, `owner` read-only and
/// signing; payload the opcode byte `3` followed by the 8-byte little-endian
/// amount, for every amount.
pub fn token_transfer_instruction<'info>(
    owner: &AccountInfo<'info>,
    from_pubkey: &AccountInfo<'info>,
    to_pubkey: &AccountInfo<'info>,
    amount: u64,
) -> (r: Instruction)
    ensures
        pubkey_bytes(r.program_id) == token_program_id_bytes(),
        r.data@ == token_transfer_data(amount),
        r.accounts@.len() == 3,
        pubkey_bytes(r.accounts@[0].pubkey) == account_key_bytes(*from_pubkey),
        !r.accounts@[0].is_signer,
        r.accounts@[0].is_writable,
        pubkey_bytes(r.accounts@[1].pubkey) == account_key_bytes(*to_pubkey),
        !r.accounts@[1].is_signer,
        r.accounts@[1].is_writable,
        pubkey_bytes(r.accounts@[2].pubkey) == account_key_bytes(*owner),
        r.accounts@[2].is_signer,
        !r.accounts@[2].is_writable,
{
    let params = TransferTokenParams { instruction: TOKEN_TRANSFER_OPCODE, amount };
    let data = params.to_vec();
    let program_id = pubkey_from_bytes(&token_program_id_array());
    let mut accounts: Vec<AccountMeta> = Vec::new();
    accounts.push(
        AccountMeta { pubkey: account_pubkey(from_pubkey), is_signer: false, is_writable: true },
    );
    accounts.push(
        AccountMeta { pubkey: account_pubkey(to_pubkey), is_signer: false, is_writable: true },
    );
    accounts.push(
        AccountMeta { pubkey: account_pubkey(owner), is_signer: true, is_writable: false },
    );
    Instruction { program_id, accounts, data }
}

/// Moves `amount` minor units of native currency from `from_pubkey` to
/// `to_pubkey` in one host-mediated instruction — all or nothing. With an
/// empty `signer_seeds` the host requires `from_pubkey`'s externally
/// verified signature; with a non-empty one it re-derives the authority from
/// the calling program's identity plus the seeds. A host rejection comes
/// back unchanged as `CpiFailure`.
pub fn transfer_lamports<'info>(
    from_pubkey: &AccountInfo<'info>,
    to_pubkey: &AccountInfo<'info>,
    amount: u64,
    signer_seeds: &[&[&[u8]]],
) -> (r: Result<(), TransferError>)
    ensures
        r matches Err(e) ==> e matches TransferError::CpiFailure(_),
{
    let from_key = account_pubkey(from_pubkey);
    let to_key = account_pubkey(to_pubkey);
    let instruction = system_transfer_instruction(&from_key, &to_key, amount);
    let hr = if signer_seeds.len() == 0 {
        dispatch_pair(&instruction, from_pubkey, to_pubkey)
    } else {
        dispatch_signed_pair(&instruction, from_pubkey, to_pubkey, signer_seeds)
    };
    cpi_result(hr)
}

/// Moves `amount` minor units of the fungible token from `from_pubkey` to
/// `to_pubkey`, authorized by `owner`, in one host-mediated instruction —
/// all or nothing. The dispatch rule is the same as for `transfer_lamports`,
/// with `owner` as the authority; a host rejection comes back unchanged as
/// `CpiFailure`.
pub fn transfer_token<'info>(
    owner: &AccountInfo<'info>,
    from_pubkey: &AccountInfo<'info>,
    to_pubkey: &AccountInfo<'info>,
    amount: u64,
    signer_seeds: &[&[&[u8]]],
) -> (r: Result<(), TransferError>)
    ensures
        r matches Err(e) ==> e matches TransferError::CpiFailure(_),
{
    let instruction = token_transfer_instruction(owner, from_pubkey, to_pubkey, amount);
    let hr = if signer_seeds.len() == 0 {
        dispatch_triple(&instruction, from_pubkey, to_pubkey, owner)
    } else {
        dispatch_signed_triple(&instruction, from_pubkey, to_pubkey, owner, signer_seeds)
    };
    cpi_result(hr)
}

} // verus!
