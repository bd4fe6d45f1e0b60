use solana_program::account_info::AccountInfo;
use solana_program::pubkey::Pubkey;
use vault_core::transfer::token_transfer_instruction;
use vault_core::transfer_lamports;
use vault_core::transfer_token;
use vault_core::TransferTokenParams;

const TOKEN_PROGRAM_ID_BYTES: [u8; 32] = [
    6, 221, 246, 225, 215, 101, 161, 147, 217, 203, 225, 70, 206, 235, 121, 172, 28, 180, 133,
    237, 95, 91, 55, 145, 58, 140, 245, 133, 126, 255, 0, 169,
];

fn expected_payload(amount: u64) -> Vec<u8> {
    let mut payload = vec![3u8];
    payload.extend_from_slice(&amount.to_le_bytes());
    payload
}

#[test]
fn token_params_encode_as_opcode_then_little_endian_amount() {
    let params = TransferTokenParams { instruction: 3, amount: 0x0102030405060708 };
    assert_eq!(params.to_vec(), expected_payload(0x0102030405060708));
}

#[test]
fn token_instruction_payload_has_opcode_three_and_little_endian_amount() {
    let owner_key = Pubkey::new_from_array([1u8; 32]);
    let from_key = Pubkey::new_from_array([2u8; 32]);
    let to_key = Pubkey::new_from_array([3u8; 32]);
    let program_owner = Pubkey::new_from_array([9u8; 32]);
    let mut owner_lamports: u64 = 0;
    let mut from_lamports: u64 = 0;
    let mut to_lamports: u64 = 0;
    let mut owner_data: [u8; 0] = [];
    let mut from_data: [u8; 0] = [];
    let mut to_data: [u8; 0] = [];
    let owner = AccountInfo::new(
        &owner_key, true, false, &mut owner_lamports, &mut owner_data, &program_owner, false, 0,
    );
    let from = AccountInfo::new(
        &from_key, false, true, &mut from_lamports, &mut from_data, &program_owner, false, 0,
    );
    let to = AccountInfo::new(
        &to_key, false, true, &mut to_lamports, &mut to_data, &program_owner, false, 0,
    );
    for amount in [0u64, 1, 255, 256, 0x0102030405060708, u64::MAX] {
        let instruction = token_transfer_instruction(&owner, &from, &to, amount);
        assert_eq!(instruction.data, expected_payload(amount));
        assert_eq!(instruction.data[0], 3);
        assert_eq!(&instruction.data[1..9], &amount.to_le_bytes());
        assert_eq!(instruction.program_id, Pubkey::new_from_array(TOKEN_PROGRAM_ID_BYTES));
        assert_eq!(instruction.accounts.len(), 3);
        assert_eq!(instruction.accounts[0].pubkey, from_key);
        assert!(instruction.accounts[0].is_writable);
        assert!(!instruction.accounts[0].is_signer);
        assert_eq!(instruction.accounts[1].pubkey, to_key);
        assert!(instruction.accounts[1].is_writable);
        assert!(!instruction.accounts[1].is_signer);
        assert_eq!(instruction.accounts[2].pubkey, owner_key);
        assert!(!instruction.accounts[2].is_writable);
        assert!(instruction.accounts[2].is_signer);
    }
}

#[test]
fn transfers_dispatch_when_the_host_accepts() {
    let owner_key = Pubkey::new_from_array([1u8; 32]);
    let from_key = Pubkey::new_from_array([2u8; 32]);
    let to_key = Pubkey::new_from_array([3u8; 32]);
    let program_owner = Pubkey::new_from_array([9u8; 32]);
    let mut owner_lamports: u64 = 0;
    let mut from_lamports: u64 = 10;
    let mut to_lamports: u64 = 0;
    let mut owner_data: [u8; 0] = [];
    let mut from_data: [u8; 0] = [];
    let mut to_data: [u8; 0] = [];
    let owner = AccountInfo::new(
        &owner_key, true, false, &mut owner_lamports, &mut owner_data, &program_owner, false, 0,
    );
    let from = AccountInfo::new(
        &from_key, true, true, &mut from_lamports, &mut from_data, &program_owner, false, 0,
    );
    let to = AccountInfo::new(
        &to_key, false, true, &mut to_lamports, &mut to_data, &program_owner, false, 0,
    );
    let seeds: &[&[&[u8]]] = &[];
    assert!(matches!(transfer_lamports(&from, &to, 5, seeds), Ok(())));
    assert!(matches!(transfer_token(&owner, &from, &to, 5, seeds), Ok(())));
    let derived: &[&[&[u8]]] = &[&[b"vault", &[42u8]]];
    assert!(matches!(transfer_lamports(&from, &to, 5, derived), Ok(())));
    assert!(matches!(transfer_token(&owner, &from, &to, 5, derived), Ok(())));
}
