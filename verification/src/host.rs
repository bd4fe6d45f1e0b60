//! The host execution environment, as this crate sees it.
//!
//! The ledger host exposes public keys, account references, instructions and
//! a dispatch primitive through `solana_program`. The types are declared here
//! so that contracts can speak about them, and each call into the host stands
//! behind a small trusted wrapper whose contract records exactly what the
//! host's source promises.

use vstd::prelude::*;

use solana_program::account_info::AccountInfo;
use solana_program::instruction::AccountMeta;
use solana_program::instruction::Instruction;
use solana_program::program_error::ProgramError;
use solana_program::pubkey::Pubkey;

verus! {

#[verifier::external_type_specification]
#[verifier::external_body]
pub struct ExPubkey(Pubkey);

#[verifier::external_type_specification]
#[verifier::external_body]
pub struct ExAccountInfo<'a>(AccountInfo<'a>);

#[verifier::external_type_specification]
pub struct ExAccountMeta(AccountMeta);

#[verifier::external_type_specification]
pub struct ExInstruction(Instruction);

#[verifier::external_type_specification]
#[verifier::external_body]
pub struct ExProgramError(ProgramError);

/// The 32 bytes of a public key: what `Pubkey::to_bytes` returns for it.
pub uninterp spec fn pubkey_bytes(k: Pubkey) -> Seq<u8>;

/// The 32 key bytes of the account an `AccountInfo` refers to.
pub uninterp spec fn account_key_bytes(a: AccountInfo<'_>) -> Seq<u8>;

/// Relies on `Pubkey::new_from_array`, which wraps the given 32 bytes, and on
/// `Pubkey::to_bytes`, which hands them back unchanged.
#[verifier::external_body]
pub fn pubkey_from_bytes(b: &[u8; 32]) -> (r: Pubkey)
    ensures
        pubkey_bytes(r) == b@,
{
    Pubkey::new_from_array(*b)
}

/// Relies on the public `key` field of `AccountInfo` and `Pubkey::to_bytes`:
/// the bytes of the key of the account the reference stands for.
#[verifier::external_body]
pub fn account_key(a: &AccountInfo<'_>) -> (r: [u8; 32])
    ensures
        r@ == account_key_bytes(*a),
{
    a.key.to_bytes()
}

/// Relies on the public `key` field of `AccountInfo`: the account's key as a
/// `Pubkey` value, copied out of the reference.
#[verifier::external_body]
pub fn account_pubkey(a: &AccountInfo<'_>) -> (r: Pubkey)
    ensures
        pubkey_bytes(r) == account_key_bytes(*a),
{
    *a.key
}

} // verus!
