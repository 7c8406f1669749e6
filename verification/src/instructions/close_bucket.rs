//! Close: the creator taking back what a contest holds before its first flush.

use crate::account::{
    agree, all_distinct, assign_balance, assigned, balances_of, credit, credited,
    lemma_assigned_agree, read_balances, store_balances, with_balances, Account, AccountView,
};
use crate::error::{HateFunError, InstructionError};
use crate::instructions::flush_escrow::{flipped, flush_spec};
use crate::instructions::{address_matches, carried_out, is_address};
use crate::state::pda::{derive_addresses, derived_addresses, DerivedAddresses};
use crate::pubkey::{pubkey_eq, Pubkey};
use crate::state::Bucket;
use crate::sysvars::RentExemption;
use crate::verification::{checked_sum, is_escrow_empty, lemma_sum_of_four, sum_balances};
use vstd::prelude::*;

verus! {

/// What a close does to the accounts `creator, record, pot, escrow A,
/// escrow B`, given the addresses `derived` for the record and the
/// minimum-persistence balances `rent` that the ledger reports, if any.
pub open spec fn close_spec(
    program_id: Pubkey,
    accounts: Seq<AccountView>,
    derived: DerivedAddresses,
    rent: Option<RentExemption>,
) -> Result<Seq<AccountView>, InstructionError> {
    if accounts.len() != 5 {
        Err(InstructionError::NotEnoughAccountKeys)
    } else if accounts[1].owner != program_id {
        Err(InstructionError::IllegalOwner)
    } else if accounts[1].data.len() < 159 {
        Err(InstructionError::AccountDataTooSmall)
    } else if !accounts[0].is_signer {
        Err(InstructionError::MissingRequiredSignature)
    } else {
        let bucket = Bucket::decode(accounts[1].data);
        if accounts[0].key != bucket.creator_address {
            Err(InstructionError::Custom(HateFunError::UnauthorizedClose))
        } else if bucket.last_flip_epoch != bucket.creation_epoch {
            Err(InstructionError::Custom(HateFunError::BucketHasFlips))
        } else if !is_address(derived.main_bucket, accounts[2].key) {
            Err(InstructionError::InvalidSeeds)
        } else if !is_address(derived.escrow_a, accounts[3].key) {
            Err(InstructionError::InvalidSeeds)
        } else if !is_address(derived.escrow_b, accounts[4].key) {
            Err(InstructionError::InvalidSeeds)
        } else {
            match rent {
                None => Err(InstructionError::UnsupportedSysvar),
                Some(rent) => if accounts[3].lamports > rent.empty || accounts[4].lamports
                    > rent.empty {
                    Err(InstructionError::Custom(HateFunError::EscrowsNotEmpty))
                } else {
                    match checked_sum(
                        seq![
                            accounts[2].lamports,
                            accounts[1].lamports,
                            accounts[3].lamports,
                            accounts[4].lamports,
                        ],
                    ) {
                        None => Err(InstructionError::Custom(HateFunError::Overflow)),
                        Some(total) => {
                            let no_record = assigned(
                                accounts,
                                balances_of(accounts),
                                accounts[1].key,
                                0,
                            );
                            let no_pot = assigned(accounts, no_record, accounts[2].key, 0);
                            let no_escrow_a = assigned(accounts, no_pot, accounts[3].key, 0);
                            let no_escrow_b = assigned(accounts, no_escrow_a, accounts[4].key, 0);
                            match credited(accounts, no_escrow_b, 0, total) {
                                None => Err(InstructionError::Custom(HateFunError::Overflow)),
                                Some(balances) => Ok(with_balances(accounts, balances)),
                            }
                        },
                    }
                },
            }
        }
    }
}

/// Closes the contest of the record at the second place of `accounts`, whose
/// other places hold the creator, the pot and the two escrows. `derived`
/// holds the addresses derived for the record, `rent` the minimum-persistence
/// balances. On any failure no account changes.
pub fn close_bucket(
    program_id: &Pubkey,
    accounts: &mut Vec<Account>,
    derived: &DerivedAddresses,
    rent: Option<RentExemption>,
) -> (r: Result<(), InstructionError>)
    ensures
        carried_out(
            close_spec(*program_id, old(accounts).deep_view(), *derived, rent),
            r,
            old(accounts).deep_view(),
            final(accounts).deep_view(),
        ),
{
    if accounts.len() != 5 {
        return Err(InstructionError::NotEnoughAccountKeys);
    }
    if !pubkey_eq(&accounts[1].owner, program_id) {
        return Err(InstructionError::IllegalOwner);
    }
    let bucket = Bucket::from_account_info(&accounts[1])?;
    if !accounts[0].is_signer {
        return Err(InstructionError::MissingRequiredSignature);
    }
    if !pubkey_eq(&accounts[0].key, &bucket.creator_address) {
        return Err(InstructionError::Custom(HateFunError::UnauthorizedClose));
    }
    if bucket.last_flip_epoch != bucket.creation_epoch {
        return Err(InstructionError::Custom(HateFunError::BucketHasFlips));
    }
    if !address_matches(&derived.main_bucket, &accounts[2].key) {
        return Err(InstructionError::InvalidSeeds);
    }
    if !address_matches(&derived.escrow_a, &accounts[3].key) {
        return Err(InstructionError::InvalidSeeds);
    }
    if !address_matches(&derived.escrow_b, &accounts[4].key) {
        return Err(InstructionError::InvalidSeeds);
    }
    let rent = match rent {
        Some(rent) => rent,
        None => {
            return Err(InstructionError::UnsupportedSysvar);
        },
    };
    if !is_escrow_empty(accounts[3].lamports, rent.empty) || !is_escrow_empty(
        accounts[4].lamports,
        rent.empty,
    ) {
        return Err(InstructionError::Custom(HateFunError::EscrowsNotEmpty));
    }
    let held: [u64; 4] = [
        accounts[2].lamports,
        accounts[1].lamports,
        accounts[3].lamports,
        accounts[4].lamports,
    ];
    assert(held@ =~= seq![
        accounts[2].lamports,
        accounts[1].lamports,
        accounts[3].lamports,
        accounts[4].lamports,
    ]);
    let total = match sum_balances(held.as_slice()) {
        Some(total) => total,
        None => {
            return Err(InstructionError::Custom(HateFunError::Overflow));
        },
    };
    let mut balances = read_balances(accounts);
    assign_balance(accounts, &mut balances, &accounts[1].key, 0);
    assign_balance(accounts, &mut balances, &accounts[2].key, 0);
    assign_balance(accounts, &mut balances, &accounts[3].key, 0);
    assign_balance(accounts, &mut balances, &accounts[4].key, 0);
    if !credit(accounts, &mut balances, 0, total) {
        return Err(InstructionError::Custom(HateFunError::Overflow));
    }
    store_balances(accounts, &balances);
    Ok(())
}

/// Close only before the first flush: once an escrow was flushed in another
/// epoch than the one the contest was created in, the record that the flush
/// left can never be closed, whatever the escrows hold. Where owner, signer
/// and creator are in order, the close is refused because the contest has
/// flips.
pub proof fn lemma_no_close_after_flush(
    program_id: Pubkey,
    flushing: Seq<AccountView>,
    flush_derived: DerivedAddresses,
    epoch: u64,
    closing: Seq<AccountView>,
    close_derived: DerivedAddresses,
    rent: Option<RentExemption>,
)
    requires
        flush_spec(program_id, flushing, flush_derived, Some(epoch)) is Ok,
        epoch != Bucket::decode(flushing[0].data).creation_epoch,
        closing.len() == 5,
        closing[1].data == flush_spec(
            program_id,
            flushing,
            flush_derived,
            Some(epoch),
        )->Ok_0[0].data,
    ensures
        close_spec(program_id, closing, close_derived, rent) is Err,
        closing[1].owner == program_id && closing[0].is_signer && closing[0].key
            == Bucket::decode(flushing[0].data).creator_address ==> close_spec(
            program_id,
            closing,
            close_derived,
            rent,
        ) == Err::<Seq<AccountView>, InstructionError>(
            InstructionError::Custom(HateFunError::BucketHasFlips),
        ),
{
    let record = flipped(Bucket::decode(flushing[0].data), flushing[2].lamports, epoch);
    record.lemma_decode_of_bytes(flushing[0].data.skip(159));
    record.lemma_layout();
}

/// A record that was flushed in a later epoch than the one it was created in
/// stays so through every further flush, as long as the ledger's epochs do
/// not run backwards.
pub proof fn lemma_flips_are_kept(bucket: Bucket, balance: u64, epoch: u64)
    requires
        bucket.last_flip_epoch > bucket.creation_epoch,
        epoch >= bucket.last_flip_epoch,
    ensures
        flipped(bucket, balance, epoch).last_flip_epoch > flipped(
            bucket,
            balance,
            epoch,
        ).creation_epoch,
{
}

/// Dust boundary: where all else is in order, escrows that hold exactly the
/// minimum-persistence balance do not stand in the way of a close, and one
/// unit more in either of them does.
pub proof fn lemma_close_dust_boundary(
    program_id: Pubkey,
    accounts: Seq<AccountView>,
    derived: DerivedAddresses,
    rent: RentExemption,
)
    requires
        accounts.len() == 5,
    ensures
        close_spec(program_id, accounts, derived, Some(rent)) is Ok ==> accounts[3].lamports
            <= rent.empty && accounts[4].lamports <= rent.empty,
        close_spec(program_id, accounts, derived, Some(rent)) == Err::<
            Seq<AccountView>,
            InstructionError,
        >(InstructionError::Custom(HateFunError::EscrowsNotEmpty)) ==> accounts[3].lamports
            > rent.empty || accounts[4].lamports > rent.empty,
        accounts[3].lamports <= rent.empty && accounts[4].lamports <= rent.empty ==> close_spec(
            program_id,
            accounts,
            derived,
            Some(rent),
        ) != Err::<Seq<AccountView>, InstructionError>(
            InstructionError::Custom(HateFunError::EscrowsNotEmpty),
        ),
{
}

/// Where the five accounts are five different ones, a close empties the
/// record, the pot and both escrows, and pays all that they held to the creator.
pub proof fn lemma_close_returns_everything(
    program_id: Pubkey,
    accounts: Seq<AccountView>,
    derived: DerivedAddresses,
    rent: Option<RentExemption>,
)
    requires
        close_spec(program_id, accounts, derived, rent) is Ok,
        all_distinct(accounts),
    ensures
        ({
            let after = close_spec(program_id, accounts, derived, rent)->Ok_0;
            &&& after.len() == 5
            &&& after[0].lamports == accounts[0].lamports + accounts[1].lamports
                + accounts[2].lamports + accounts[3].lamports + accounts[4].lamports
            &&& after[1].lamports == 0
            &&& after[2].lamports == 0
            &&& after[3].lamports == 0
            &&& after[4].lamports == 0
        }),
{
    let held = seq![
        accounts[2].lamports,
        accounts[1].lamports,
        accounts[3].lamports,
        accounts[4].lamports,
    ];
    lemma_sum_of_four(held);
    assert(accounts[0].key != accounts[1].key);
    assert(accounts[0].key != accounts[2].key);
    assert(accounts[0].key != accounts[3].key);
    assert(accounts[0].key != accounts[4].key);
    assert(accounts[1].key != accounts[2].key);
    assert(accounts[1].key != accounts[3].key);
    assert(accounts[1].key != accounts[4].key);
    assert(accounts[2].key != accounts[3].key);
    assert(accounts[2].key != accounts[4].key);
    assert(accounts[3].key != accounts[4].key);
}

/// Where the places that hold the same account hold the same balance before
/// a close, they do so after it: every account is left with one balance.
pub proof fn lemma_close_keeps_one_balance_each(
    program_id: Pubkey,
    accounts: Seq<AccountView>,
    derived: DerivedAddresses,
    rent: Option<RentExemption>,
)
    requires
        close_spec(program_id, accounts, derived, rent) is Ok,
        agree(accounts, balances_of(accounts)),
    ensures
        ({
            let after = close_spec(program_id, accounts, derived, rent)->Ok_0;
            agree(after, balances_of(after))
        }),
{
    let total = checked_sum(
        seq![
            accounts[2].lamports,
            accounts[1].lamports,
            accounts[3].lamports,
            accounts[4].lamports,
        ],
    )->0;
    let no_record = assigned(accounts, balances_of(accounts), accounts[1].key, 0);
    let no_pot = assigned(accounts, no_record, accounts[2].key, 0);
    let no_escrow_a = assigned(accounts, no_pot, accounts[3].key, 0);
    let no_escrow_b = assigned(accounts, no_escrow_a, accounts[4].key, 0);
    let balances = credited(accounts, no_escrow_b, 0, total)->0;
    lemma_assigned_agree(accounts, balances_of(accounts), accounts[1].key, 0);
    lemma_assigned_agree(accounts, no_record, accounts[2].key, 0);
    lemma_assigned_agree(accounts, no_pot, accounts[3].key, 0);
    lemma_assigned_agree(accounts, no_escrow_a, accounts[4].key, 0);
    lemma_assigned_agree(accounts, no_escrow_b, accounts[0].key, (no_escrow_b[0] + total) as u64);
    let after = with_balances(accounts, balances);
    assert(balances_of(after) =~= balances);
    assert forall|i: int, j: int|
        0 <= i < after.len() && 0 <= j < after.len() && after[i].key
            == after[j].key implies #[trigger] balances_of(after)[i] == #[trigger] balances_of(
        after,
    )[j] by {
        assert(accounts[i].key == accounts[j].key);
        assert(balances[i] == balances[j]);
    }
}

/// Closes the contest of the record at the second place of `accounts`:
/// derives the record's addresses and carries out the close.
pub fn process_close_bucket(
    program_id: &Pubkey,
    accounts: &mut Vec<Account>,
    _data: &[u8],
    rent: Option<RentExemption>,
) -> (r: Result<(), InstructionError>)
    ensures
        carried_out(
            close_spec(
                *program_id,
                old(accounts).deep_view(),
                derived_addresses(old(accounts)[1].key, *program_id),
                rent,
            ),
            r,
            old(accounts).deep_view(),
            final(accounts).deep_view(),
        ),
{
    if accounts.len() != 5 {
        return Err(InstructionError::NotEnoughAccountKeys);
    }
    let derived = derive_addresses(&accounts[1].key, program_id);
    close_bucket(program_id, accounts, &derived, rent)
}

} // verus!
