use hate_fun::account::Account;
use hate_fun::error::{HateFunError, InstructionError};
use hate_fun::instructions::deposit_to_escrow::process_deposit_to_escrow;
use hate_fun::system_program::{transfer, AccountMeta};

const DEPOSIT_PROGRAM: [u8; 32] = [100; 32];

fn deposit_account(key: u8, owner: [u8; 32], lamports: u64, is_signer: bool) -> Account {
    Account { key: [key; 32], owner, lamports, is_signer, data: Vec::new() }
}

fn deposit_accounts() -> Vec<Account> {
    vec![
        deposit_account(20, [0; 32], 5_000_000_000, true),
        deposit_account(13, DEPOSIT_PROGRAM, 890_880, false),
        deposit_account(0, [0; 32], 1, false),
    ]
}

#[test]
fn deposit_asks_for_the_transfer() {
    let accounts = deposit_accounts();
    let instruction =
        process_deposit_to_escrow(&DEPOSIT_PROGRAM, &accounts, &1_100_000_000u64.to_le_bytes())
            .unwrap();
    assert_eq!(instruction, transfer(&accounts[0], &accounts[1], 1_100_000_000));
    assert_eq!(instruction.program_id, [0; 32]);
    assert_eq!(instruction.data[..4], [2, 0, 0, 0]);
    assert_eq!(instruction.data[4..], 1_100_000_000u64.to_le_bytes());
    assert_eq!(
        instruction.accounts,
        vec![
            AccountMeta { pubkey: [20; 32], is_writable: true, is_signer: true },
            AccountMeta { pubkey: [13; 32], is_writable: true, is_signer: false },
        ]
    );
    assert_eq!(accounts, deposit_accounts());
}

#[test]
fn deposit_reads_only_the_first_eight_bytes() {
    let mut data = 1_000u64.to_le_bytes().to_vec();
    data.extend_from_slice(&[9, 9, 9]);
    let accounts = deposit_accounts();
    assert_eq!(
        process_deposit_to_escrow(&DEPOSIT_PROGRAM, &accounts, &data),
        Ok(transfer(&accounts[0], &accounts[1], 1_000))
    );
}

#[test]
fn deposit_needs_an_amount() {
    assert_eq!(
        process_deposit_to_escrow(&DEPOSIT_PROGRAM, &deposit_accounts(), &[1, 2, 3, 4, 5, 6, 7]),
        Err(InstructionError::InvalidInstructionData)
    );
    assert_eq!(
        process_deposit_to_escrow(&DEPOSIT_PROGRAM, &deposit_accounts(), &[]),
        Err(InstructionError::InvalidInstructionData)
    );
}

#[test]
fn zero_deposit_is_refused() {
    assert_eq!(
        process_deposit_to_escrow(&DEPOSIT_PROGRAM, &deposit_accounts(), &0u64.to_le_bytes()),
        Err(InstructionError::Custom(HateFunError::ZeroAmountDeposit))
    );
}

#[test]
fn deposit_below_the_dust_floor_is_refused() {
    for amount in [1u64, 500, 999] {
        assert_eq!(
            process_deposit_to_escrow(&DEPOSIT_PROGRAM, &deposit_accounts(), &amount.to_le_bytes()),
            Err(InstructionError::Custom(HateFunError::DepositTooSmall))
        );
    }
    assert!(
        process_deposit_to_escrow(&DEPOSIT_PROGRAM, &deposit_accounts(), &1_000u64.to_le_bytes())
            .is_ok()
    );
    assert!(
        process_deposit_to_escrow(&DEPOSIT_PROGRAM, &deposit_accounts(), &u64::MAX.to_le_bytes())
            .is_ok()
    );
}

#[test]
fn amount_is_checked_before_the_accounts() {
    assert_eq!(
        process_deposit_to_escrow(&DEPOSIT_PROGRAM, &Vec::new(), &999u64.to_le_bytes()),
        Err(InstructionError::Custom(HateFunError::DepositTooSmall))
    );
    assert_eq!(
        process_deposit_to_escrow(&DEPOSIT_PROGRAM, &Vec::new(), &1_000u64.to_le_bytes()),
        Err(InstructionError::NotEnoughAccountKeys)
    );
}

#[test]
fn deposit_needs_three_accounts() {
    let mut accounts = deposit_accounts();
    accounts.pop();
    assert_eq!(
        process_deposit_to_escrow(&DEPOSIT_PROGRAM, &accounts, &5_000u64.to_le_bytes()),
        Err(InstructionError::NotEnoughAccountKeys)
    );
    let mut accounts = deposit_accounts();
    accounts.push(deposit_account(1, [0; 32], 0, false));
    assert_eq!(
        process_deposit_to_escrow(&DEPOSIT_PROGRAM, &accounts, &5_000u64.to_le_bytes()),
        Err(InstructionError::NotEnoughAccountKeys)
    );
}

#[test]
fn deposit_needs_the_depositors_signature() {
    let mut accounts = deposit_accounts();
    accounts[0].is_signer = false;
    assert_eq!(
        process_deposit_to_escrow(&DEPOSIT_PROGRAM, &accounts, &5_000u64.to_le_bytes()),
        Err(InstructionError::MissingRequiredSignature)
    );
}

#[test]
fn deposit_needs_an_escrow_of_this_program() {
    let mut accounts = deposit_accounts();
    accounts[1].owner = [0; 32];
    assert_eq!(
        process_deposit_to_escrow(&DEPOSIT_PROGRAM, &accounts, &5_000u64.to_le_bytes()),
        Err(InstructionError::Custom(HateFunError::InvalidEscrow))
    );
}
