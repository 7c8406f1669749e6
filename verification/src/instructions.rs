//! The five instructions of a contest, and the dispatcher that routes to them.

use crate::account::{Account, AccountView};
pub use crate::encoding::{read_pubkey, read_u16, read_u64};
use crate::error::InstructionError;
use crate::instructions::claim_payout::{claim_spec, process_claim_payout};
use crate::instructions::close_bucket::{close_spec, process_close_bucket};
use crate::instructions::create_bucket::{
    create_spec, created, process_create_bucket, CreateBucketArgs, Creation, CreationView,
};
use crate::instructions::deposit_to_escrow::{deposit_spec, process_deposit_to_escrow};
use crate::instructions::flush_escrow::{flush_spec, process_flush_escrow};
use crate::state::pda::{bucket_seeds, derived_addresses, program_address};
use crate::pubkey::{pubkey_eq, Pubkey};
use crate::system_program::{Instruction, InstructionView};
use crate::sysvars::RentExemption;
use vstd::prelude::*;
use vstd::slice::slice_subrange;

pub mod claim_payout;
pub mod close_bucket;
pub mod create_bucket;
pub mod deposit_to_escrow;
pub mod flush_escrow;

verus! {

/// Whether `derived` is the address `key`, whatever its salt.
pub open spec fn is_address(derived: Option<(Pubkey, u8)>, key: Pubkey) -> bool {
    derived matches Some((address, _)) && address == key
}

/// Whether the account at `key` is the one that was derived for its role.
pub(crate) fn address_matches(derived: &Option<(Pubkey, u8)>, key: &Pubkey) -> (same: bool)
    ensures
        same == is_address(*derived, *key),
{
    match derived {
        Some((address, _)) => pubkey_eq(address, key),
        None => false,
    }
}

/// Whether an instruction that answered `result`, and left the accounts
/// `before` as `after`, did what `expected` says: on success the accounts are
/// the expected ones, on failure the error is the expected one and no account
/// has changed.
pub open spec fn carried_out(
    expected: Result<Seq<AccountView>, InstructionError>,
    result: Result<(), InstructionError>,
    before: Seq<AccountView>,
    after: Seq<AccountView>,
) -> bool {
    match result {
        Ok(()) => expected == Ok::<Seq<AccountView>, InstructionError>(after),
        Err(e) => expected == Err::<Seq<AccountView>, InstructionError>(e) && after == before,
    }
}

/// The five operations, told apart by the first byte of an instruction.
#[derive(Debug, Clone, Copy, PartialEq, Eq, Structural)]
pub enum GateInstruction {
    /// Opens a contest. Payload: three addresses, two fees, the baseline, the
    /// minimum increase and the seed, 142 bytes in all.
    CreateBucket,
    /// Pays into an escrow. Payload: the amount, eight bytes.
    DepositToEscrow,
    /// Sweeps an escrow into the pot. No payload.
    FlushEscrow,
    /// Settles the contest. No payload.
    ClaimPayout,
    /// Closes a contest that was never flushed. No payload.
    CloseBucket,
}

impl GateInstruction {
    /// The operation that the byte `opcode` stands for, if any.
    pub open spec fn of_opcode(opcode: u8) -> Option<GateInstruction> {
        if opcode == 0 {
            Some(GateInstruction::CreateBucket)
        } else if opcode == 1 {
            Some(GateInstruction::DepositToEscrow)
        } else if opcode == 2 {
            Some(GateInstruction::FlushEscrow)
        } else if opcode == 3 {
            Some(GateInstruction::ClaimPayout)
        } else if opcode == 4 {
            Some(GateInstruction::CloseBucket)
        } else {
            None
        }
    }

    /// The byte that stands for this operation.
    pub open spec fn spec_opcode(self) -> u8 {
        match self {
            GateInstruction::CreateBucket => 0,
            GateInstruction::DepositToEscrow => 1,
            GateInstruction::FlushEscrow => 2,
            GateInstruction::ClaimPayout => 3,
            GateInstruction::CloseBucket => 4,
        }
    }

    /// The operation that the byte `opcode` stands for, if any.
    pub fn from_opcode(opcode: u8) -> (r: Option<GateInstruction>)
        ensures
            r == GateInstruction::of_opcode(opcode),
    {
        match opcode {
            0 => Some(GateInstruction::CreateBucket),
            1 => Some(GateInstruction::DepositToEscrow),
            2 => Some(GateInstruction::FlushEscrow),
            3 => Some(GateInstruction::ClaimPayout),
            4 => Some(GateInstruction::CloseBucket),
            _ => None,
        }
    }

    /// The byte that stands for this operation.
    #[verifier::when_used_as_spec(spec_opcode)]
    pub fn opcode(self) -> (opcode: u8)
        ensures
            opcode == self.spec_opcode(),
            GateInstruction::of_opcode(opcode) == Some(self),
    {
        match self {
            GateInstruction::CreateBucket => 0,
            GateInstruction::DepositToEscrow => 1,
            GateInstruction::FlushEscrow => 2,
            GateInstruction::ClaimPayout => 3,
            GateInstruction::CloseBucket => 4,
        }
    }
}

/// What an instruction that succeeded leaves for its caller to do.
#[derive(Debug, PartialEq, Eq)]
pub enum Outcome {
    /// A contest was opened: its accounts are to be allocated and its record
    /// written.
    Created(Creation),
    /// A deposit was accepted: the transfer is to be invoked.
    Deposited(Instruction),
    /// An escrow was flushed; the accounts hold the result.
    Flushed,
    /// The contest was settled; the accounts hold the result.
    Claimed,
    /// The contest was closed; the accounts hold the result.
    Closed,
}

/// What an `Outcome` holds, with its instructions as sequences.
pub enum OutcomeView {
    Created(CreationView),
    Deposited(InstructionView),
    Flushed,
    Claimed,
    Closed,
}

impl View for Outcome {
    type V = OutcomeView;

    open spec fn view(&self) -> OutcomeView {
        match self {
            Outcome::Created(creation) => OutcomeView::Created(creation@),
            Outcome::Deposited(instruction) => OutcomeView::Deposited(instruction@),
            Outcome::Flushed => OutcomeView::Flushed,
            Outcome::Claimed => OutcomeView::Claimed,
            Outcome::Closed => OutcomeView::Closed,
        }
    }
}

/// `expected` as the result of a dispatched instruction that leaves `outcome`.
pub open spec fn leaving(
    expected: Result<Seq<AccountView>, InstructionError>,
    outcome: OutcomeView,
) -> Result<(OutcomeView, Seq<AccountView>), InstructionError> {
    match expected {
        Ok(after) => Ok((outcome, after)),
        Err(e) => Err(e),
    }
}

/// What the instruction `instruction_data` does on `accounts`: its first
/// byte chooses the operation, the rest is the operation's payload. The
/// addresses are the ones derived for the record that the accounts name;
/// `clock` and `rent` are what the ledger reports, if anything. The result is
/// what is left to do, with the accounts as they then are.
pub open spec fn dispatch_spec(
    program_id: Pubkey,
    accounts: Seq<AccountView>,
    instruction_data: Seq<u8>,
    clock: Option<u64>,
    rent: Option<RentExemption>,
) -> Result<(OutcomeView, Seq<AccountView>), InstructionError> {
    let payload = instruction_data.skip(1);
    if instruction_data.len() == 0 {
        Err(InstructionError::InvalidInstructionData)
    } else {
        match GateInstruction::of_opcode(instruction_data[0]) {
            None => Err(InstructionError::InvalidInstructionData),
            Some(GateInstruction::CreateBucket) => match create_spec(
                program_id,
                accounts,
                payload,
                program_address(
                    bucket_seeds(
                        CreateBucketArgs::decode(payload).creator_address,
                        CreateBucketArgs::decode(payload).seed@,
                    ),
                    program_id,
                ),
                derived_addresses(accounts[1].key, program_id),
                clock,
                rent,
            ) {
                Ok(creation) => Ok((OutcomeView::Created(creation), accounts)),
                Err(e) => Err(e),
            },
            Some(GateInstruction::DepositToEscrow) => match deposit_spec(
                program_id,
                accounts,
                payload,
            ) {
                Ok(instruction) => Ok((OutcomeView::Deposited(instruction), accounts)),
                Err(e) => Err(e),
            },
            Some(GateInstruction::FlushEscrow) => leaving(
                flush_spec(
                    program_id,
                    accounts,
                    derived_addresses(accounts[0].key, program_id),
                    clock,
                ),
                OutcomeView::Flushed,
            ),
            Some(GateInstruction::ClaimPayout) => leaving(
                claim_spec(
                    program_id,
                    accounts,
                    derived_addresses(accounts[0].key, program_id),
                    clock,
                ),
                OutcomeView::Claimed,
            ),
            Some(GateInstruction::CloseBucket) => leaving(
                close_spec(
                    program_id,
                    accounts,
                    derived_addresses(accounts[1].key, program_id),
                    rent,
                ),
                OutcomeView::Closed,
            ),
        }
    }
}

/// Whether a dispatched instruction that answered `result`, and left the
/// accounts `before` as `after`, did what `expected` says.
pub open spec fn dispatched(
    expected: Result<(OutcomeView, Seq<AccountView>), InstructionError>,
    result: Result<Outcome, InstructionError>,
    before: Seq<AccountView>,
    after: Seq<AccountView>,
) -> bool {
    match result {
        Ok(outcome) => expected == Ok::<(OutcomeView, Seq<AccountView>), InstructionError>(
            (outcome@, after),
        ),
        Err(e) => expected == Err::<(OutcomeView, Seq<AccountView>), InstructionError>(e)
            && after == before,
    }
}

/// Carries out the instruction `instruction_data` on `accounts`: reads the
/// operation from the first byte and hands the rest to it. `rent` holds the
/// minimum-persistence balances that the ledger reports, if any. On any
/// failure no account changes.
pub fn process_instruction(
    program_id: &Pubkey,
    accounts: &mut Vec<Account>,
    instruction_data: &[u8],
    rent: Option<RentExemption>,
) -> (r: Result<Outcome, InstructionError>)
    ensures
        exists|clock: Option<u64>|
            dispatched(
                #[trigger] dispatch_spec(
                    *program_id,
                    old(accounts).deep_view(),
                    instruction_data@,
                    clock,
                    rent,
                ),
                r,
                old(accounts).deep_view(),
                final(accounts).deep_view(),
            ),
{
    let ghost before = accounts.deep_view();
    if instruction_data.len() == 0 {
        assert(dispatched(
            dispatch_spec(*program_id, before, instruction_data@, None, rent),
            Err(InstructionError::InvalidInstructionData),
            before,
            accounts.deep_view(),
        ));
        return Err(InstructionError::InvalidInstructionData);
    }
    let payload = slice_subrange(instruction_data, 1, instruction_data.len());
    assert(payload@ =~= instruction_data@.skip(1));
    match GateInstruction::from_opcode(instruction_data[0]) {
        None => {
            assert(dispatched(
                dispatch_spec(*program_id, before, instruction_data@, None, rent),
                Err(InstructionError::InvalidInstructionData),
                before,
                accounts.deep_view(),
            ));
            Err(InstructionError::InvalidInstructionData)
        },
        Some(GateInstruction::CreateBucket) => {
            let made = process_create_bucket(program_id, accounts, payload, rent);
            let ghost clock = choose|clock: Option<u64>|
                created(
                    #[trigger] create_spec(
                        *program_id,
                        before,
                        payload@,
                        program_address(
                            bucket_seeds(
                                CreateBucketArgs::decode(payload@).creator_address,
                                CreateBucketArgs::decode(payload@).seed@,
                            ),
                            *program_id,
                        ),
                        derived_addresses(before[1].key, *program_id),
                        clock,
                        rent,
                    ),
                    made,
                );
            let r = match made {
                Ok(creation) => Ok(Outcome::Created(creation)),
                Err(e) => Err(e),
            };
            assert(dispatched(
                dispatch_spec(*program_id, before, instruction_data@, clock, rent),
                r,
                before,
                accounts.deep_view(),
            ));
            r
        },
        Some(GateInstruction::DepositToEscrow) => {
            let r = match process_deposit_to_escrow(program_id, accounts, payload) {
                Ok(instruction) => Ok(Outcome::Deposited(instruction)),
                Err(e) => Err(e),
            };
            assert(dispatched(
                dispatch_spec(*program_id, before, instruction_data@, None, rent),
                r,
                before,
                accounts.deep_view(),
            ));
            r
        },
        Some(GateInstruction::FlushEscrow) => {
            let done = process_flush_escrow(program_id, accounts, payload);
            let ghost clock = choose|clock: Option<u64>|
                carried_out(
                    #[trigger] flush_spec(
                        *program_id,
                        before,
                        derived_addresses(before[0].key, *program_id),
                        clock,
                    ),
                    done,
                    before,
                    accounts.deep_view(),
                );
            let r = match done {
                Ok(()) => Ok(Outcome::Flushed),
                Err(e) => Err(e),
            };
            assert(dispatched(
                dispatch_spec(*program_id, before, instruction_data@, clock, rent),
                r,
                before,
                accounts.deep_view(),
            ));
            r
        },
        Some(GateInstruction::ClaimPayout) => {
            let done = process_claim_payout(program_id, accounts, payload);
            let ghost clock = choose|clock: Option<u64>|
                carried_out(
                    #[trigger] claim_spec(
                        *program_id,
                        before,
                        derived_addresses(before[0].key, *program_id),
                        clock,
                    ),
                    done,
                    before,
                    accounts.deep_view(),
                );
            let r = match done {
                Ok(()) => Ok(Outcome::Claimed),
                Err(e) => Err(e),
            };
            assert(dispatched(
                dispatch_spec(*program_id, before, instruction_data@, clock, rent),
                r,
                before,
                accounts.deep_view(),
            ));
            r
        },
        Some(GateInstruction::CloseBucket) => {
            let r = match process_close_bucket(program_id, accounts, payload, rent) {
                Ok(()) => Ok(Outcome::Closed),
                Err(e) => Err(e),
            };
            assert(dispatched(
                dispatch_spec(*program_id, before, instruction_data@, None, rent),
                r,
                before,
                accounts.deep_view(),
            ));
            r
        },
    }
}

} // verus!
