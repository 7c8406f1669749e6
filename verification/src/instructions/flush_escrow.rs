//! Flush: sweeping an escrow that has reached the threshold into the pot, and
//! passing the lead to the other side.

use crate::account::{
    agree, assign_balance, assigned, balances_of, credit, credited, lemma_assigned_agree,
    read_balances, store_balances, with_balances, with_data, Account, AccountView,
};
use crate::error::{HateFunError, InstructionError};
use crate::instructions::{address_matches, carried_out, is_address};
use crate::state::pda::{derive_addresses, derived_addresses, DerivedAddresses};
use crate::pubkey::{pubkey_eq, Pubkey};
use crate::state::Bucket;
use crate::sysvars::current_epoch;
use crate::verification::{
    calculate_flush_threshold, checked_flush_threshold, lemma_threshold_strictly_above,
};
use vstd::prelude::*;

verus! {

/// The record after an escrow holding `balance` won a flush in `epoch`: the
/// lead passes to the other competing address, and the balance becomes the
/// amount to exceed.
pub open spec fn flipped(bucket: Bucket, balance: u64, epoch: u64) -> Bucket {
    Bucket {
        current_target: if bucket.current_target == bucket.address_a {
            bucket.address_b
        } else {
            bucket.address_a
        },
        last_swap: balance,
        last_flip_epoch: epoch,
        ..bucket
    }
}

/// What a flush does to the accounts `record, pot, escrow`, given the
/// addresses `derived` for the record and the epoch `clock` that the ledger
/// reports, if any.
pub open spec fn flush_spec(
    program_id: Pubkey,
    accounts: Seq<AccountView>,
    derived: DerivedAddresses,
    clock: Option<u64>,
) -> Result<Seq<AccountView>, InstructionError> {
    if accounts.len() != 3 {
        Err(InstructionError::NotEnoughAccountKeys)
    } else if accounts[0].owner != program_id {
        Err(InstructionError::IllegalOwner)
    } else if accounts[0].data.len() < 159 {
        Err(InstructionError::AccountDataTooSmall)
    } else if !is_address(derived.escrow_a, accounts[2].key) && !is_address(
        derived.escrow_b,
        accounts[2].key,
    ) {
        Err(InstructionError::Custom(HateFunError::InvalidEscrow))
    } else if !is_address(derived.main_bucket, accounts[1].key) {
        Err(InstructionError::InvalidSeeds)
    } else {
        let bucket = Bucket::decode(accounts[0].data);
        let balance = accounts[2].lamports;
        match checked_flush_threshold(bucket.last_swap, bucket.min_increase_bps) {
            None => Err(InstructionError::Custom(HateFunError::Overflow)),
            Some(threshold) => if balance < threshold {
                Err(InstructionError::Custom(HateFunError::InsufficientEscrowBalance))
            } else {
                match clock {
                    None => Err(InstructionError::UnsupportedSysvar),
                    Some(epoch) => {
                        let emptied = assigned(
                            accounts,
                            balances_of(accounts),
                            accounts[2].key,
                            0,
                        );
                        match credited(accounts, emptied, 1, balance) {
                            None => Err(InstructionError::Custom(HateFunError::Overflow)),
                            Some(balances) => Ok(
                                with_data(
                                    with_balances(accounts, balances),
                                    0,
                                    flipped(bucket, balance, epoch).bytes()
                                        + accounts[0].data.skip(159),
                                ),
                            ),
                        }
                    },
                }
            },
        }
    }
}

/// Flushes the escrow at the third place of `accounts` into the pot at the
/// second, for the record at the first. `derived` holds the addresses derived
/// for the record, `clock` the current epoch. On any failure no account changes.
pub fn flush_escrow(
    program_id: &Pubkey,
    accounts: &mut Vec<Account>,
    derived: &DerivedAddresses,
    clock: Option<u64>,
) -> (r: Result<(), InstructionError>)
    ensures
        carried_out(
            flush_spec(*program_id, old(accounts).deep_view(), *derived, clock),
            r,
            old(accounts).deep_view(),
            final(accounts).deep_view(),
        ),
{
    if accounts.len() != 3 {
        return Err(InstructionError::NotEnoughAccountKeys);
    }
    if !pubkey_eq(&accounts[0].owner, program_id) {
        return Err(InstructionError::IllegalOwner);
    }
    let mut bucket = Bucket::from_account_info(&accounts[0])?;
    if !address_matches(&derived.escrow_a, &accounts[2].key) && !address_matches(
        &derived.escrow_b,
        &accounts[2].key,
    ) {
        return Err(InstructionError::Custom(HateFunError::InvalidEscrow));
    }
    if !address_matches(&derived.main_bucket, &accounts[1].key) {
        return Err(InstructionError::InvalidSeeds);
    }
    let balance = accounts[2].lamports;
    let threshold = match calculate_flush_threshold(bucket.last_swap, bucket.min_increase_bps) {
        Some(threshold) => threshold,
        None => {
            return Err(InstructionError::Custom(HateFunError::Overflow));
        },
    };
    if balance < threshold {
        return Err(InstructionError::Custom(HateFunError::InsufficientEscrowBalance));
    }
    let epoch = match clock {
        Some(epoch) => epoch,
        None => {
            return Err(InstructionError::UnsupportedSysvar);
        },
    };
    let mut balances = read_balances(accounts);
    assign_balance(accounts, &mut balances, &accounts[2].key, 0);
    if !credit(accounts, &mut balances, 1, balance) {
        return Err(InstructionError::Custom(HateFunError::Overflow));
    }
    bucket.current_target = if pubkey_eq(&bucket.current_target, &bucket.address_a) {
        bucket.address_b
    } else {
        bucket.address_a
    };
    bucket.last_swap = balance;
    bucket.last_flip_epoch = epoch;
    store_balances(accounts, &balances);
    proof {
        let stored = with_balances(old(accounts).deep_view(), balances@);
        assert(accounts.deep_view().len() == stored.len());
        assert(accounts.deep_view()[0] == stored[0]);
    }
    bucket.store(&mut accounts[0]);
    assert(accounts.deep_view() =~= with_data(
        with_balances(old(accounts).deep_view(), balances@),
        0,
        bucket.bytes() + old(accounts)[0].data@.skip(159),
    ));
    Ok(())
}

/// Where record, pot and escrow are three different accounts, a flush moves
/// the whole balance of the escrow into the pot and leaves the record's
/// balance alone; the record that is then stored is the flipped one.
pub proof fn lemma_flush_moves_escrow_into_pot(
    program_id: Pubkey,
    accounts: Seq<AccountView>,
    derived: DerivedAddresses,
    epoch: u64,
)
    requires
        flush_spec(program_id, accounts, derived, Some(epoch)) is Ok,
        accounts[0].key != accounts[1].key,
        accounts[0].key != accounts[2].key,
        accounts[1].key != accounts[2].key,
    ensures
        ({
            let after = flush_spec(program_id, accounts, derived, Some(epoch))->Ok_0;
            &&& after.len() == 3
            &&& after[0].lamports == accounts[0].lamports
            &&& after[1].lamports == accounts[1].lamports + accounts[2].lamports
            &&& after[2].lamports == 0
            &&& Bucket::decode(after[0].data) == flipped(
                Bucket::decode(accounts[0].data),
                accounts[2].lamports,
                epoch,
            )
        }),
{
    let bucket = Bucket::decode(accounts[0].data);
    flipped(bucket, accounts[2].lamports, epoch).lemma_decode_of_bytes(accounts[0].data.skip(159));
}

/// Where the places that hold the same account hold the same balance before
/// a flush, they do so after it: every account is left with one balance.
pub proof fn lemma_flush_keeps_one_balance_each(
    program_id: Pubkey,
    accounts: Seq<AccountView>,
    derived: DerivedAddresses,
    clock: Option<u64>,
)
    requires
        flush_spec(program_id, accounts, derived, clock) is Ok,
        agree(accounts, balances_of(accounts)),
    ensures
        ({
            let after = flush_spec(program_id, accounts, derived, clock)->Ok_0;
            agree(after, balances_of(after))
        }),
{
    let emptied = assigned(accounts, balances_of(accounts), accounts[2].key, 0);
    let balances = credited(accounts, emptied, 1, accounts[2].lamports)->0;
    lemma_assigned_agree(accounts, balances_of(accounts), accounts[2].key, 0);
    lemma_assigned_agree(
        accounts,
        emptied,
        accounts[1].key,
        (emptied[1] + accounts[2].lamports) as u64,
    );
    let after = flush_spec(program_id, accounts, derived, clock)->Ok_0;
    assert(balances_of(after) =~= balances);
    assert forall|i: int, j: int|
        0 <= i < after.len() && 0 <= j < after.len() && after[i].key
            == after[j].key implies #[trigger] balances_of(after)[i] == #[trigger] balances_of(
        after,
    )[j] by {
        assert(accounts[i].key == accounts[j].key);
        assert(balances[i] == balances[j]);
    }
}

/// A flush keeps the invariants of a record, as long as the ledger's epochs
/// do not run backwards: the record that a flush leaves is the flipped one,
/// its lead lies with the other competing address, and the amount to exceed
/// has grown.
pub proof fn lemma_flush_keeps_record_well_formed(
    program_id: Pubkey,
    accounts: Seq<AccountView>,
    derived: DerivedAddresses,
    epoch: u64,
)
    requires
        flush_spec(program_id, accounts, derived, Some(epoch)) is Ok,
        Bucket::decode(accounts[0].data).well_formed(),
        epoch >= Bucket::decode(accounts[0].data).last_flip_epoch,
    ensures
        ({
            let before = Bucket::decode(accounts[0].data);
            let after = Bucket::decode(
                flush_spec(program_id, accounts, derived, Some(epoch))->Ok_0[0].data,
            );
            &&& after == flipped(before, accounts[2].lamports, epoch)
            &&& after.well_formed()
            &&& after.last_swap > before.last_swap
            &&& before.address_a != before.address_b ==> after.current_target
                != before.current_target
        }),
{
    let before = Bucket::decode(accounts[0].data);
    flipped(before, accounts[2].lamports, epoch).lemma_decode_of_bytes(accounts[0].data.skip(159));
    lemma_threshold_strictly_above(before.last_swap, before.min_increase_bps);
}

/// Flushes an escrow for the record at the first place of `accounts`: derives
/// the record's addresses, reads the ledger's clock, and carries out the flush.
pub fn process_flush_escrow(program_id: &Pubkey, accounts: &mut Vec<Account>, _data: &[u8]) -> (r:
    Result<(), InstructionError>)
    ensures
        exists|clock: Option<u64>|
            carried_out(
                #[trigger] flush_spec(
                    *program_id,
                    old(accounts).deep_view(),
                    derived_addresses(old(accounts)[0].key, *program_id),
                    clock,
                ),
                r,
                old(accounts).deep_view(),
                final(accounts).deep_view(),
            ),
{
    if accounts.len() != 3 {
        assert(carried_out(
            flush_spec(
                *program_id,
                old(accounts).deep_view(),
                derived_addresses(old(accounts)[0].key, *program_id),
                None,
            ),
            Err(InstructionError::NotEnoughAccountKeys),
            old(accounts).deep_view(),
            accounts.deep_view(),
        ));
        return Err(InstructionError::NotEnoughAccountKeys);
    }
    let derived = derive_addresses(&accounts[0].key, program_id);
    let clock = current_epoch();
    flush_escrow(program_id, accounts, &derived, clock)
}

} // verus!
