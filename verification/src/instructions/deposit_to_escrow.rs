//! Deposit: backing one side by paying into its escrow.

use crate::account::{Account, AccountView};
use crate::encoding::{le_value, read_u64};
use crate::error::{HateFunError, InstructionError};
use crate::pubkey::{pubkey_eq, Pubkey};
use crate::system_program::{transfer, transfer_instruction, Instruction, InstructionView};
use vstd::prelude::*;

verus! {

/// The dust floor: the smallest amount that can be deposited.
pub const MINIMUM_DEPOSIT: u64 = 1_000;

/// What a deposit with the payload `data` on the accounts `depositor, escrow,
/// system program` asks for: the transfer of the amount that the payload
/// spells, from the depositor to the escrow.
pub open spec fn deposit_spec(
    program_id: Pubkey,
    accounts: Seq<AccountView>,
    data: Seq<u8>,
) -> Result<InstructionView, InstructionError> {
    let amount = le_value(data.subrange(0, 8)) as u64;
    if data.len() < 8 {
        Err(InstructionError::InvalidInstructionData)
    } else if amount == 0 {
        Err(InstructionError::Custom(HateFunError::ZeroAmountDeposit))
    } else if amount < 1_000 {
        Err(InstructionError::Custom(HateFunError::DepositTooSmall))
    } else if accounts.len() != 3 {
        Err(InstructionError::NotEnoughAccountKeys)
    } else if !accounts[0].is_signer {
        Err(InstructionError::MissingRequiredSignature)
    } else if accounts[1].owner != program_id {
        Err(InstructionError::Custom(HateFunError::InvalidEscrow))
    } else {
        Ok(transfer_instruction(accounts[0].key, accounts[1].key, amount))
    }
}

/// Checks a deposit and builds the transfer that carries it out. The caller
/// invokes the transfer; no account is changed here.
pub fn process_deposit_to_escrow(program_id: &Pubkey, accounts: &Vec<Account>, data: &[u8]) -> (r:
    Result<Instruction, InstructionError>)
    ensures
        match r {
            Ok(instruction) => deposit_spec(*program_id, accounts.deep_view(), data@) == Ok::<
                InstructionView,
                InstructionError,
            >(instruction@),
            Err(e) => deposit_spec(*program_id, accounts.deep_view(), data@) == Err::<
                InstructionView,
                InstructionError,
            >(e),
        },
{
    let amount = read_u64(data, 0)?;
    if amount == 0 {
        return Err(InstructionError::Custom(HateFunError::ZeroAmountDeposit));
    }
    if amount < MINIMUM_DEPOSIT {
        return Err(InstructionError::Custom(HateFunError::DepositTooSmall));
    }
    if accounts.len() != 3 {
        return Err(InstructionError::NotEnoughAccountKeys);
    }
    if !accounts[0].is_signer {
        return Err(InstructionError::MissingRequiredSignature);
    }
    if !pubkey_eq(&accounts[1].owner, program_id) {
        return Err(InstructionError::Custom(HateFunError::InvalidEscrow));
    }
    Ok(transfer(&accounts[0], &accounts[1], amount))
}

} // verus!
