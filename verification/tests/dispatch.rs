use hate_fun::account::Account;
use hate_fun::error::{HateFunError, InstructionError};
use hate_fun::instructions::{process_instruction, GateInstruction, Outcome};
use hate_fun::state::Bucket;
use hate_fun::system_program::transfer;
use hate_fun::sysvars::RentExemption;

const DISPATCH_PROGRAM: [u8; 32] = [100; 32];
const DISPATCH_RENT: RentExemption = RentExemption { record: 1_997_520, empty: 890_880 };

fn dispatch_account(key: u8, owner: [u8; 32], is_signer: bool) -> Account {
    Account { key: [key; 32], owner, lamports: 1_000_000, is_signer, data: Vec::new() }
}

fn dispatch_record() -> Account {
    let record = Bucket {
        address_a: [1; 32],
        address_b: [2; 32],
        creator_address: [3; 32],
        current_target: [1; 32],
        last_swap: 1_000_000_000,
        creation_epoch: 5,
        last_flip_epoch: 5,
        creator_fee_bps: 500,
        claimer_fee_bps: 50,
        min_increase_bps: 500,
        bump: 254,
    };
    let mut account = dispatch_account(10, DISPATCH_PROGRAM, false);
    account.data = record.to_bytes();
    account
}

#[test]
fn opcodes() {
    assert_eq!(GateInstruction::CreateBucket.opcode(), 0);
    assert_eq!(GateInstruction::DepositToEscrow.opcode(), 1);
    assert_eq!(GateInstruction::FlushEscrow.opcode(), 2);
    assert_eq!(GateInstruction::ClaimPayout.opcode(), 3);
    assert_eq!(GateInstruction::CloseBucket.opcode(), 4);
    assert_eq!(GateInstruction::from_opcode(0), Some(GateInstruction::CreateBucket));
    assert_eq!(GateInstruction::from_opcode(1), Some(GateInstruction::DepositToEscrow));
    assert_eq!(GateInstruction::from_opcode(2), Some(GateInstruction::FlushEscrow));
    assert_eq!(GateInstruction::from_opcode(3), Some(GateInstruction::ClaimPayout));
    assert_eq!(GateInstruction::from_opcode(4), Some(GateInstruction::CloseBucket));
    for opcode in 5..=u8::MAX {
        assert_eq!(GateInstruction::from_opcode(opcode), None);
    }
}

#[test]
fn empty_instruction_is_refused() {
    let mut accounts = vec![dispatch_account(1, [0; 32], true)];
    assert_eq!(
        process_instruction(&DISPATCH_PROGRAM, &mut accounts, &[], Some(DISPATCH_RENT)),
        Err(InstructionError::InvalidInstructionData)
    );
}

#[test]
fn unknown_operation_is_refused() {
    let mut accounts = vec![dispatch_account(1, [0; 32], true)];
    for opcode in [5u8, 6, 100, 255] {
        assert_eq!(
            process_instruction(
                &DISPATCH_PROGRAM,
                &mut accounts,
                &[opcode, 0, 0],
                Some(DISPATCH_RENT)
            ),
            Err(InstructionError::InvalidInstructionData)
        );
    }
}

#[test]
fn deposit_is_dispatched_with_its_payload() {
    let mut accounts = vec![
        dispatch_account(20, [0; 32], true),
        dispatch_account(13, DISPATCH_PROGRAM, false),
        dispatch_account(0, [0; 32], false),
    ];
    let mut data = vec![1u8];
    data.extend_from_slice(&1_100_000_000u64.to_le_bytes());
    let expected = transfer(&accounts[0], &accounts[1], 1_100_000_000);
    assert_eq!(
        process_instruction(&DISPATCH_PROGRAM, &mut accounts, &data, None),
        Ok(Outcome::Deposited(expected))
    );
    assert_eq!(
        process_instruction(&DISPATCH_PROGRAM, &mut accounts, &[1, 0, 0, 0, 0, 0, 0, 0, 0], None),
        Err(InstructionError::Custom(HateFunError::ZeroAmountDeposit))
    );
    assert_eq!(
        process_instruction(&DISPATCH_PROGRAM, &mut accounts, &[1, 9], None),
        Err(InstructionError::InvalidInstructionData)
    );
}

#[test]
fn each_operation_is_reached() {
    // Away from the ledger no address is derived, so each of the other four
    // operations stops at its own first test of an address.
    let mut create_data = vec![0u8];
    create_data.extend_from_slice(&[1u8; 32]);
    create_data.extend_from_slice(&[2u8; 32]);
    create_data.extend_from_slice(&[3u8; 32]);
    create_data.extend_from_slice(&500u16.to_le_bytes());
    create_data.extend_from_slice(&50u16.to_le_bytes());
    create_data.extend_from_slice(&1_000_000_000u64.to_le_bytes());
    create_data.extend_from_slice(&500u16.to_le_bytes());
    create_data.extend_from_slice(&[7u8; 32]);
    let mut accounts: Vec<Account> =
        (0..6).map(|i| dispatch_account(9 + i, [0; 32], i == 0)).collect();
    assert_eq!(
        process_instruction(&DISPATCH_PROGRAM, &mut accounts, &create_data, Some(DISPATCH_RENT)),
        Err(InstructionError::InvalidSeeds)
    );
    assert_eq!(
        process_instruction(
            &DISPATCH_PROGRAM,
            &mut accounts,
            &create_data[..100],
            Some(DISPATCH_RENT)
        ),
        Err(InstructionError::InvalidInstructionData)
    );

    let mut accounts = vec![
        dispatch_record(),
        dispatch_account(11, DISPATCH_PROGRAM, false),
        dispatch_account(13, DISPATCH_PROGRAM, false),
    ];
    assert_eq!(
        process_instruction(&DISPATCH_PROGRAM, &mut accounts, &[2], Some(DISPATCH_RENT)),
        Err(InstructionError::Custom(HateFunError::InvalidEscrow))
    );

    let mut accounts = vec![
        dispatch_record(),
        dispatch_account(11, DISPATCH_PROGRAM, false),
        dispatch_account(12, DISPATCH_PROGRAM, false),
        dispatch_account(13, DISPATCH_PROGRAM, false),
        dispatch_account(3, [0; 32], false),
        dispatch_account(30, [0; 32], false),
        dispatch_account(1, [0; 32], false),
    ];
    assert_eq!(
        process_instruction(&DISPATCH_PROGRAM, &mut accounts, &[3], Some(DISPATCH_RENT)),
        Err(InstructionError::MissingRequiredSignature)
    );
    accounts[5].is_signer = true;
    assert_eq!(
        process_instruction(&DISPATCH_PROGRAM, &mut accounts, &[3], Some(DISPATCH_RENT)),
        Err(InstructionError::InvalidSeeds)
    );

    let mut accounts = vec![
        dispatch_account(4, [0; 32], true),
        dispatch_record(),
        dispatch_account(11, DISPATCH_PROGRAM, false),
        dispatch_account(12, DISPATCH_PROGRAM, false),
        dispatch_account(13, DISPATCH_PROGRAM, false),
    ];
    assert_eq!(
        process_instruction(&DISPATCH_PROGRAM, &mut accounts, &[4], Some(DISPATCH_RENT)),
        Err(InstructionError::Custom(HateFunError::UnauthorizedClose))
    );
    accounts[0].key = [3; 32];
    assert_eq!(
        process_instruction(&DISPATCH_PROGRAM, &mut accounts, &[4], Some(DISPATCH_RENT)),
        Err(InstructionError::InvalidSeeds)
    );
}
