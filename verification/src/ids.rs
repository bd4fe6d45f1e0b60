//! Identity oracle for the two privileged programs.
//!
//! The vault only ever trusts two counterpart programs: the native-currency
//! system program and the fungible-token program. Both identities are fixed,
//! compiled-in 32-byte public keys; the predicates here test an account
//! reference against them by plain byte equality.

use vstd::prelude::*;

use solana_program::account_info::AccountInfo;

use crate::host::account_key;
use crate::host::account_key_bytes;

verus! {

/// The system (native-currency) program's identity: 32 zero bytes.
pub open spec fn system_program_id_bytes() -> Seq<u8> {
    Seq::new(32, |i: int| 0u8)
}

/// The fungible-token program's identity.
pub open spec fn token_program_id_bytes() -> Seq<u8> {
    seq![
        6u8, 221u8, 246u8, 225u8, 215u8, 101u8, 161u8, 147u8,
        217u8, 203u8, 225u8, 70u8, 206u8, 235u8, 121u8, 172u8,
        28u8, 180u8, 133u8, 237u8, 95u8, 91u8, 55u8, 145u8,
        58u8, 140u8, 245u8, 133u8, 126u8, 255u8, 0u8, 169u8,
    ]
}

/// The system program's identity as a byte array.
pub fn system_program_id_array() -> (r: [u8; 32])
    ensures
        r@ == system_program_id_bytes(),
{
    let r: [u8; 32] = [0u8; 32];
    proof {
        assert(r@ =~= system_program_id_bytes());
    }
    r
}

/// The token program's identity as a byte array.
pub fn token_program_id_array() -> (r: [u8; 32])
    ensures
        r@ == token_program_id_bytes(),
{
    let r: [u8; 32] = [
        6u8, 221u8, 246u8, 225u8, 215u8, 101u8, 161u8, 147u8,
        217u8, 203u8, 225u8, 70u8, 206u8, 235u8, 121u8, 172u8,
        28u8, 180u8, 133u8, 237u8, 95u8, 91u8, 55u8, 145u8,
        58u8, 140u8, 245u8, 133u8, 126u8, 255u8, 0u8, 169u8,
    ];
    proof {
        assert(r@ =~= token_program_id_bytes());
    }
    r
}

/// Byte-for-byte equality of two 32-byte values.
pub fn bytes32_eq(a: &[u8; 32], b: &[u8; 32]) -> (r: bool)
    ensures
        r == (a@ == b@),
{
    let mut i: usize = 0;
    while i < 32
        invariant
            i <= 32,
            forall|j: int| 0 <= j < i ==> a@[j] == b@[j],
        decreases 32 - i,
    {
        if a[i] != b[i] {
            return false;
        }
        i += 1;
    }
    proof {
        assert(a@ =~= b@);
    }
    true
}

/// True iff the account's public key is the native-currency system program's
/// identity. A `false` result means the account must not be trusted as that
/// program; rejecting the surrounding operation is the caller's duty.
pub fn is_system_program<'a>(account: &AccountInfo<'a>) -> (r: bool)
    ensures
        r == (account_key_bytes(*account) == system_program_id_bytes()),
{
    let key = account_key(account);
    let id = system_program_id_array();
    bytes32_eq(&key, &id)
}

/// True iff the account's public key is the fungible-token program's
/// identity.
pub fn is_token_program<'a>(account: &AccountInfo<'a>) -> (r: bool)
    ensures
        r == (account_key_bytes(*account) == token_program_id_bytes()),
{
    let key = account_key(account);
    let id = token_program_id_array();
    bytes32_eq(&key, &id)
}

/// The two privileged identities are distinct, so no account can ever pass
/// both `is_system_program` and `is_token_program`.
pub proof fn lemma_program_identities_distinct<'a>(account: AccountInfo<'a>)
    ensures
        !(account_key_bytes(account) == system_program_id_bytes()
            && account_key_bytes(account) == token_program_id_bytes()),
{
    assert(system_program_id_bytes()[0] == 0u8);
    assert(token_program_id_bytes()[0] == 6u8);
}

} // verus!
