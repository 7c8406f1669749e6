use hate_fun::account::Account;
use hate_fun::instructions::create_bucket::create_bucket;
use hate_fun::instructions::deposit_to_escrow::process_deposit_to_escrow;
use hate_fun::instructions::flush_escrow::flush_escrow;
use hate_fun::state::pda::DerivedAddresses;
use hate_fun::state::Bucket;
use hate_fun::sysvars::RentExemption;

const FLOW_PROGRAM: [u8; 32] = [100; 32];

fn flow_account(key: u8, owner: [u8; 32], lamports: u64, is_signer: bool) -> Account {
    Account { key: [key; 32], owner, lamports, is_signer, data: Vec::new() }
}

// Carries a deposit out the way the system program does.
fn flow_deposit(depositor: &mut Account, escrow: &mut Account, amount: u64) {
    let accounts = vec![
        Account { data: Vec::new(), ..*depositor },
        Account { data: Vec::new(), ..*escrow },
        flow_account(0, [0; 32], 1, false),
    ];
    let transfer =
        process_deposit_to_escrow(&FLOW_PROGRAM, &accounts, &amount.to_le_bytes()).unwrap();
    assert_eq!(transfer.accounts[0].pubkey, depositor.key);
    assert_eq!(transfer.accounts[1].pubkey, escrow.key);
    assert_eq!(transfer.data[4..], amount.to_le_bytes());
    depositor.lamports -= amount;
    escrow.lamports += amount;
}

#[test]
fn end_to_end() {
    let derived = DerivedAddresses {
        main_bucket: Some(([11; 32], 253)),
        escrow_a: Some(([12; 32], 252)),
        escrow_b: Some(([13; 32], 251)),
    };
    // In this ledger the pot and the escrows need no balance to persist.
    let rent = RentExemption { record: 1_997_520, empty: 0 };

    // Create: initial baseline 1,000,000,000, minimum increase 5%, lead with A.
    let mut payload = Vec::new();
    payload.extend_from_slice(&[1u8; 32]);
    payload.extend_from_slice(&[2u8; 32]);
    payload.extend_from_slice(&[3u8; 32]);
    payload.extend_from_slice(&500u16.to_le_bytes());
    payload.extend_from_slice(&50u16.to_le_bytes());
    payload.extend_from_slice(&1_000_000_000u64.to_le_bytes());
    payload.extend_from_slice(&500u16.to_le_bytes());
    payload.extend_from_slice(&[7u8; 32]);
    let accounts = vec![
        flow_account(9, [0; 32], 5_000_000_000, true),
        flow_account(10, [0; 32], 0, false),
        flow_account(11, [0; 32], 0, false),
        flow_account(12, [0; 32], 0, false),
        flow_account(13, [0; 32], 0, false),
        flow_account(0, [0; 32], 1, false),
    ];
    let creation = create_bucket(
        &FLOW_PROGRAM,
        &accounts,
        &payload,
        &Some(([10; 32], 254)),
        &derived,
        Some(5),
        Some(rent),
    )
    .unwrap();
    assert_eq!(creation.record.current_target, [1; 32]);
    assert_eq!(creation.record.last_swap, 1_000_000_000);

    // The allocations, as the system program carries them out.
    let mut record = flow_account(10, FLOW_PROGRAM, rent.record, false);
    record.data = creation.record.to_bytes();
    let mut pot = flow_account(11, FLOW_PROGRAM, rent.empty, false);
    let mut escrow_a = flow_account(12, FLOW_PROGRAM, rent.empty, false);
    let mut escrow_b = flow_account(13, FLOW_PROGRAM, rent.empty, false);

    // A backer of B deposits 1,100,000,000 and flushes.
    let mut backer_b = flow_account(21, [0; 32], 5_000_000_000, true);
    flow_deposit(&mut backer_b, &mut escrow_b, 1_100_000_000);
    let mut accounts = vec![record, pot, escrow_b];
    assert_eq!(flush_escrow(&FLOW_PROGRAM, &mut accounts, &derived, Some(6)), Ok(()));
    escrow_b = accounts.pop().unwrap();
    pot = accounts.pop().unwrap();
    record = accounts.pop().unwrap();
    let state = Bucket::from_account_info(&record).unwrap();
    assert_eq!(state.current_target, [2; 32]);
    assert_eq!(state.last_swap, 1_100_000_000);
    assert_eq!(pot.lamports, 1_100_000_000);
    assert_eq!(escrow_b.lamports, 0);

    // A backer of A deposits 1,200,000,000 and flushes.
    let mut backer_a = flow_account(22, [0; 32], 5_000_000_000, true);
    flow_deposit(&mut backer_a, &mut escrow_a, 1_200_000_000);
    let mut accounts = vec![record, pot, escrow_a];
    assert_eq!(flush_escrow(&FLOW_PROGRAM, &mut accounts, &derived, Some(7)), Ok(()));
    escrow_a = accounts.pop().unwrap();
    pot = accounts.pop().unwrap();
    record = accounts.pop().unwrap();
    let state = Bucket::from_account_info(&record).unwrap();
    assert_eq!(state.current_target, [1; 32]);
    assert_eq!(state.last_swap, 1_200_000_000);
    assert_eq!(state.last_flip_epoch, 7);
    assert_eq!(state.creation_epoch, 5);
    assert_eq!(pot.lamports, 2_300_000_000);
    assert_eq!(escrow_a.lamports, 0);
    assert_eq!(backer_a.lamports, 3_800_000_000);
    assert_eq!(backer_b.lamports, 3_900_000_000);
}
