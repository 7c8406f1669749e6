use hate_fun::account::Account;
use hate_fun::error::{HateFunError, InstructionError};
use hate_fun::instructions::close_bucket::{close_bucket, process_close_bucket};
use hate_fun::instructions::flush_escrow::flush_escrow;
use hate_fun::state::pda::DerivedAddresses;
use hate_fun::state::Bucket;
use hate_fun::sysvars::RentExemption;

const CLOSE_PROGRAM: [u8; 32] = [100; 32];
const CLOSE_RENT: RentExemption = RentExemption { record: 1_997_520, empty: 890_880 };

fn close_record() -> Bucket {
    Bucket {
        address_a: [1; 32],
        address_b: [2; 32],
        creator_address: [3; 32],
        current_target: [1; 32],
        last_swap: 1_000_000_000,
        creation_epoch: 5,
        last_flip_epoch: 5,
        creator_fee_bps: 500,
        claimer_fee_bps: 50,
        min_increase_bps: 500,
        bump: 254,
    }
}

fn close_derived() -> DerivedAddresses {
    DerivedAddresses {
        main_bucket: Some(([11; 32], 253)),
        escrow_a: Some(([12; 32], 252)),
        escrow_b: Some(([13; 32], 251)),
    }
}

fn close_held(key: u8, lamports: u64) -> Account {
    Account { key: [key; 32], owner: CLOSE_PROGRAM, lamports, is_signer: false, data: Vec::new() }
}

fn close_accounts(record: &Bucket, escrow_a: u64, escrow_b: u64) -> Vec<Account> {
    let mut record_account = close_held(10, 1_997_520);
    record_account.data = record.to_bytes();
    vec![
        Account {
            key: [3; 32],
            owner: [0; 32],
            lamports: 1_000,
            is_signer: true,
            data: Vec::new(),
        },
        record_account,
        close_held(11, 890_880),
        close_held(12, escrow_a),
        close_held(13, escrow_b),
    ]
}

#[test]
fn dust_boundary() {
    let record = close_record();
    let mut accounts = close_accounts(&record, 890_880, 890_880);
    assert_eq!(
        close_bucket(&CLOSE_PROGRAM, &mut accounts, &close_derived(), Some(CLOSE_RENT)),
        Ok(())
    );

    let mut accounts = close_accounts(&record, 890_881, 890_880);
    assert_eq!(
        close_bucket(&CLOSE_PROGRAM, &mut accounts, &close_derived(), Some(CLOSE_RENT)),
        Err(InstructionError::Custom(HateFunError::EscrowsNotEmpty))
    );
    assert_eq!(accounts, close_accounts(&record, 890_881, 890_880));

    let mut accounts = close_accounts(&record, 890_880, 890_881);
    assert_eq!(
        close_bucket(&CLOSE_PROGRAM, &mut accounts, &close_derived(), Some(CLOSE_RENT)),
        Err(InstructionError::Custom(HateFunError::EscrowsNotEmpty))
    );
}

#[test]
fn a_small_deposit_cannot_be_seized() {
    // A deposit of the smallest size on top of the minimum-persistence balance.
    let mut accounts = close_accounts(&close_record(), 890_880 + 1_000, 890_880);
    assert_eq!(
        close_bucket(&CLOSE_PROGRAM, &mut accounts, &close_derived(), Some(CLOSE_RENT)),
        Err(InstructionError::Custom(HateFunError::EscrowsNotEmpty))
    );
}

#[test]
fn close_pays_everything_to_the_creator() {
    let mut accounts = close_accounts(&close_record(), 890_880, 17);
    assert_eq!(
        close_bucket(&CLOSE_PROGRAM, &mut accounts, &close_derived(), Some(CLOSE_RENT)),
        Ok(())
    );
    assert_eq!(accounts[0].lamports, 1_000 + 1_997_520 + 890_880 + 890_880 + 17);
    assert_eq!(accounts[1].lamports, 0);
    assert_eq!(accounts[2].lamports, 0);
    assert_eq!(accounts[3].lamports, 0);
    assert_eq!(accounts[4].lamports, 0);
    assert_eq!(accounts[1].data, close_record().to_bytes());
}

#[test]
fn close_only_before_the_first_flush() {
    // Flush the second escrow in a later epoch, then empty both escrows.
    let record = close_record();
    let mut flushing = vec![
        close_accounts(&record, 0, 0).remove(1),
        close_held(11, 890_880),
        close_held(13, 1_100_000_000),
    ];
    assert_eq!(flush_escrow(&CLOSE_PROGRAM, &mut flushing, &close_derived(), Some(6)), Ok(()));
    let flushed = Bucket::from_account_info(&flushing[0]).unwrap();
    assert_eq!(flushed.last_flip_epoch, 6);

    let held = [(0, 0), (890_880, 890_880), (5_000_000_000, 0), (u64::MAX, u64::MAX)];
    for (escrow_a, escrow_b) in held {
        let mut accounts = close_accounts(&flushed, escrow_a, escrow_b);
        assert_eq!(
            close_bucket(&CLOSE_PROGRAM, &mut accounts, &close_derived(), Some(CLOSE_RENT)),
            Err(InstructionError::Custom(HateFunError::BucketHasFlips))
        );
        assert_eq!(accounts, close_accounts(&flushed, escrow_a, escrow_b));
    }
}

#[test]
fn a_flush_in_the_epoch_of_creation_leaves_no_trace_for_close() {
    let record = close_record();
    let mut flushing = vec![
        close_accounts(&record, 0, 0).remove(1),
        close_held(11, 890_880),
        close_held(13, 1_100_000_000),
    ];
    assert_eq!(flush_escrow(&CLOSE_PROGRAM, &mut flushing, &close_derived(), Some(5)), Ok(()));
    let flushed = Bucket::from_account_info(&flushing[0]).unwrap();
    assert_eq!(flushed.last_swap, 1_100_000_000);
    let mut accounts = close_accounts(&flushed, 0, 0);
    assert_eq!(
        close_bucket(&CLOSE_PROGRAM, &mut accounts, &close_derived(), Some(CLOSE_RENT)),
        Ok(())
    );
}

#[test]
fn close_needs_five_accounts() {
    let mut accounts = close_accounts(&close_record(), 0, 0);
    accounts.pop();
    assert_eq!(
        close_bucket(&CLOSE_PROGRAM, &mut accounts, &close_derived(), Some(CLOSE_RENT)),
        Err(InstructionError::NotEnoughAccountKeys)
    );
}

#[test]
fn close_needs_a_record_of_this_program() {
    let mut accounts = close_accounts(&close_record(), 0, 0);
    accounts[1].owner = [0; 32];
    assert_eq!(
        close_bucket(&CLOSE_PROGRAM, &mut accounts, &close_derived(), Some(CLOSE_RENT)),
        Err(InstructionError::IllegalOwner)
    );
    let mut accounts = close_accounts(&close_record(), 0, 0);
    accounts[1].data.truncate(100);
    assert_eq!(
        close_bucket(&CLOSE_PROGRAM, &mut accounts, &close_derived(), Some(CLOSE_RENT)),
        Err(InstructionError::AccountDataTooSmall)
    );
}

#[test]
fn close_needs_the_creators_signature() {
    let mut accounts = close_accounts(&close_record(), 0, 0);
    accounts[0].is_signer = false;
    assert_eq!(
        close_bucket(&CLOSE_PROGRAM, &mut accounts, &close_derived(), Some(CLOSE_RENT)),
        Err(InstructionError::MissingRequiredSignature)
    );
}

#[test]
fn close_is_for_the_creator_alone() {
    let mut accounts = close_accounts(&close_record(), 0, 0);
    accounts[0].key = [4; 32];
    assert_eq!(
        close_bucket(&CLOSE_PROGRAM, &mut accounts, &close_derived(), Some(CLOSE_RENT)),
        Err(InstructionError::Custom(HateFunError::UnauthorizedClose))
    );
}

#[test]
fn close_needs_the_derived_addresses() {
    for place in 2..5 {
        let mut accounts = close_accounts(&close_record(), 0, 0);
        accounts[place].key[31] ^= 1;
        assert_eq!(
            close_bucket(&CLOSE_PROGRAM, &mut accounts, &close_derived(), Some(CLOSE_RENT)),
            Err(InstructionError::InvalidSeeds)
        );
    }
}

#[test]
fn close_needs_the_minimum_persistence_balance() {
    let mut accounts = close_accounts(&close_record(), 0, 0);
    assert_eq!(
        close_bucket(&CLOSE_PROGRAM, &mut accounts, &close_derived(), None),
        Err(InstructionError::UnsupportedSysvar)
    );
}

#[test]
fn close_fails_where_the_total_leaves_u64() {
    let record = close_record();
    let mut accounts = close_accounts(&record, 0, 0);
    accounts[2].lamports = u64::MAX;
    assert_eq!(
        close_bucket(&CLOSE_PROGRAM, &mut accounts, &close_derived(), Some(CLOSE_RENT)),
        Err(InstructionError::Custom(HateFunError::Overflow))
    );
    let mut accounts = close_accounts(&record, 0, 0);
    accounts[0].lamports = u64::MAX;
    assert_eq!(
        close_bucket(&CLOSE_PROGRAM, &mut accounts, &close_derived(), Some(CLOSE_RENT)),
        Err(InstructionError::Custom(HateFunError::Overflow))
    );
    assert_eq!(accounts[1].lamports, 1_997_520);
}

#[test]
fn close_away_from_the_ledger_finds_no_addresses() {
    let record = close_record();
    let mut accounts = close_accounts(&record, 0, 0);
    assert_eq!(
        process_close_bucket(&CLOSE_PROGRAM, &mut accounts, &[], Some(CLOSE_RENT)),
        Err(InstructionError::InvalidSeeds)
    );
    assert_eq!(accounts, close_accounts(&record, 0, 0));
    accounts[0].key = [4; 32];
    assert_eq!(
        process_close_bucket(&CLOSE_PROGRAM, &mut accounts, &[], Some(CLOSE_RENT)),
        Err(InstructionError::Custom(HateFunError::UnauthorizedClose))
    );
}
