use hate_fun::account::Account;
use hate_fun::system_program::{create_account, transfer, AccountMeta, ID};

fn holder(key: u8) -> Account {
    Account { key: [key; 32], owner: [0; 32], lamports: 0, is_signer: false, data: Vec::new() }
}

#[test]
fn system_program_address_is_all_zero() {
    assert_eq!(ID, [0u8; 32]);
}

#[test]
fn transfer_instruction_bytes() {
    let instruction = transfer(&holder(1), &holder(2), 1_100_000_000);
    assert_eq!(instruction.program_id, ID);
    let mut data = vec![2u8, 0, 0, 0];
    data.extend_from_slice(&1_100_000_000u64.to_le_bytes());
    assert_eq!(instruction.data, data);
    assert_eq!(instruction.data.len(), 12);
    assert_eq!(
        instruction.accounts,
        vec![
            AccountMeta { pubkey: [1; 32], is_writable: true, is_signer: true },
            AccountMeta { pubkey: [2; 32], is_writable: true, is_signer: false },
        ]
    );
    assert!(instruction.signer_seeds.is_empty());
}

#[test]
fn create_account_instruction_bytes() {
    let seeds = vec![b"main".to_vec(), vec![10u8; 32], vec![253u8]];
    let instruction =
        create_account(&holder(1), &holder(2), 890_880, 159, &[100; 32], seeds.clone());
    assert_eq!(instruction.program_id, ID);
    let mut data = vec![0u8, 0, 0, 0];
    data.extend_from_slice(&890_880u64.to_le_bytes());
    data.extend_from_slice(&159u64.to_le_bytes());
    data.extend_from_slice(&[100u8; 32]);
    assert_eq!(instruction.data, data);
    assert_eq!(instruction.data.len(), 52);
    assert_eq!(
        instruction.accounts,
        vec![
            AccountMeta { pubkey: [1; 32], is_writable: true, is_signer: true },
            AccountMeta { pubkey: [2; 32], is_writable: true, is_signer: true },
        ]
    );
    assert_eq!(instruction.signer_seeds, seeds);
}
