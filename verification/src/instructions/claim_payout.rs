//! Claim: settling a contest whose lead has stood for three epochs, and
//! paying the creator, the claimer and the winner.

use crate::account::{
    agree, all_distinct, assign_balance, assigned, balances_of, credit, debit,
    lemma_assigned_agree, lemma_moved_agree, moved, read_balances, store_balances, with_balances,
    Account, AccountView,
};
use crate::error::{HateFunError, InstructionError};
use crate::instructions::{address_matches, carried_out, is_address};
use crate::state::pda::{derive_addresses, derived_addresses, DerivedAddresses};
use crate::pubkey::{pubkey_eq, Pubkey};
use crate::state::Bucket;
use crate::sysvars::current_epoch;
use crate::verification::{
    calculate_payout_distribution, checked_sum, lemma_sum_of_four, payout_distribution,
    sum_balances,
};
use vstd::prelude::*;

verus! {

/// The number of epochs a lead must have stood before the contest can be settled.
pub const CLAIM_COOLDOWN_EPOCHS: u64 = 3;

/// Whether a contest whose lead last changed in `last_flip_epoch` can be
/// settled in `epoch`: three epochs or more have passed.
pub open spec fn cooldown_over(last_flip_epoch: u64, epoch: u64) -> bool {
    epoch >= last_flip_epoch + 3
}

/// The balances of the accounts `record, pot, escrow A, escrow B, creator,
/// claimer, winner` after a settlement of `total`: the record takes in the
/// pot and both escrows, then pays the three cuts out of it. `None` where an
/// account cannot give or take its part.
pub open spec fn settled(
    accounts: Seq<AccountView>,
    total: u64,
    creator_cut: u64,
    claimer_cut: u64,
    winner_cut: u64,
) -> Option<Seq<u64>> {
    let gathered = assigned(accounts, balances_of(accounts), accounts[0].key, total);
    let no_pot = assigned(accounts, gathered, accounts[1].key, 0);
    let no_escrow_a = assigned(accounts, no_pot, accounts[2].key, 0);
    let no_escrow_b = assigned(accounts, no_escrow_a, accounts[3].key, 0);
    match moved(accounts, no_escrow_b, 0, 4, creator_cut) {
        None => None,
        Some(creator_paid) => match moved(accounts, creator_paid, 0, 5, claimer_cut) {
            None => None,
            Some(claimer_paid) => moved(accounts, claimer_paid, 0, 6, winner_cut),
        },
    }
}

/// What a claim does to the accounts `record, pot, escrow A, escrow B,
/// creator, claimer, winner`, given the addresses `derived` for the record
/// and the epoch `clock` that the ledger reports, if any.
pub open spec fn claim_spec(
    program_id: Pubkey,
    accounts: Seq<AccountView>,
    derived: DerivedAddresses,
    clock: Option<u64>,
) -> Result<Seq<AccountView>, InstructionError> {
    if accounts.len() != 7 {
        Err(InstructionError::NotEnoughAccountKeys)
    } else if accounts[0].owner != program_id {
        Err(InstructionError::IllegalOwner)
    } else if accounts[0].data.len() < 159 {
        Err(InstructionError::AccountDataTooSmall)
    } else if !accounts[5].is_signer {
        Err(InstructionError::MissingRequiredSignature)
    } else if !is_address(derived.main_bucket, accounts[1].key) {
        Err(InstructionError::InvalidSeeds)
    } else if !is_address(derived.escrow_a, accounts[2].key) {
        Err(InstructionError::InvalidSeeds)
    } else if !is_address(derived.escrow_b, accounts[3].key) {
        Err(InstructionError::InvalidSeeds)
    } else {
        let bucket = Bucket::decode(accounts[0].data);
        if accounts[4].key != bucket.creator_address {
            Err(InstructionError::InvalidAccountData)
        } else if accounts[6].key != bucket.current_target {
            Err(InstructionError::InvalidAccountData)
        } else {
            match clock {
                None => Err(InstructionError::UnsupportedSysvar),
                Some(epoch) => if !cooldown_over(bucket.last_flip_epoch, epoch) {
                    Err(InstructionError::Custom(HateFunError::ClaimTooEarly))
                } else {
                    match checked_sum(
                        seq![
                            accounts[1].lamports,
                            accounts[2].lamports,
                            accounts[3].lamports,
                            accounts[0].lamports,
                        ],
                    ) {
                        None => Err(InstructionError::Custom(HateFunError::Overflow)),
                        Some(total) => match payout_distribution(
                            total,
                            bucket.creator_fee_bps,
                            bucket.claimer_fee_bps,
                        ) {
                            None => Err(InstructionError::Custom(HateFunError::Overflow)),
                            Some((creator_cut, claimer_cut, winner_cut)) => match settled(
                                accounts,
                                total,
                                creator_cut,
                                claimer_cut,
                                winner_cut,
                            ) {
                                None => Err(InstructionError::Custom(HateFunError::Overflow)),
                                Some(balances) => Ok(with_balances(accounts, balances)),
                            },
                        },
                    }
                },
            }
        }
    }
}

/// Moves `amount` in the working list from the account at place `from` to
/// the account at place `to`. Where that cannot be, the list is of no more
/// use: the caller drops it.
fn transfer_balance(
    accounts: &Vec<Account>,
    balances: &mut Vec<u64>,
    from: usize,
    to: usize,
    amount: u64,
) -> (done: bool)
    requires
        from < accounts.len(),
        to < accounts.len(),
        old(balances).len() == accounts.len(),
    ensures
        final(balances).len() == accounts.len(),
        match moved(accounts.deep_view(), old(balances)@, from as int, to as int, amount) {
            Some(after) => done && final(balances)@ == after,
            None => !done,
        },
{
    if !debit(accounts, balances, from, amount) {
        return false;
    }
    credit(accounts, balances, to, amount)
}

/// Settles the contest of the record at the first place of `accounts`, whose
/// other places hold the pot, the two escrows, the creator, the claimer and
/// the winner. `derived` holds the addresses derived for the record, `clock`
/// the current epoch. On any failure no account changes.
pub fn claim_payout(
    program_id: &Pubkey,
    accounts: &mut Vec<Account>,
    derived: &DerivedAddresses,
    clock: Option<u64>,
) -> (r: Result<(), InstructionError>)
    ensures
        carried_out(
            claim_spec(*program_id, old(accounts).deep_view(), *derived, clock),
            r,
            old(accounts).deep_view(),
            final(accounts).deep_view(),
        ),
{
    if accounts.len() != 7 {
        return Err(InstructionError::NotEnoughAccountKeys);
    }
    if !pubkey_eq(&accounts[0].owner, program_id) {
        return Err(InstructionError::IllegalOwner);
    }
    let bucket = Bucket::from_account_info(&accounts[0])?;
    if !accounts[5].is_signer {
        return Err(InstructionError::MissingRequiredSignature);
    }
    if !address_matches(&derived.main_bucket, &accounts[1].key) {
        return Err(InstructionError::InvalidSeeds);
    }
    if !address_matches(&derived.escrow_a, &accounts[2].key) {
        return Err(InstructionError::InvalidSeeds);
    }
    if !address_matches(&derived.escrow_b, &accounts[3].key) {
        return Err(InstructionError::InvalidSeeds);
    }
    if !pubkey_eq(&accounts[4].key, &bucket.creator_address) {
        return Err(InstructionError::InvalidAccountData);
    }
    if !pubkey_eq(&accounts[6].key, &bucket.current_target) {
        return Err(InstructionError::InvalidAccountData);
    }
    let epoch = match clock {
        Some(epoch) => epoch,
        None => {
            return Err(InstructionError::UnsupportedSysvar);
        },
    };
    if epoch < CLAIM_COOLDOWN_EPOCHS || epoch - CLAIM_COOLDOWN_EPOCHS < bucket.last_flip_epoch {
        return Err(InstructionError::Custom(HateFunError::ClaimTooEarly));
    }
    let held: [u64; 4] = [
        accounts[1].lamports,
        accounts[2].lamports,
        accounts[3].lamports,
        accounts[0].lamports,
    ];
    assert(held@ =~= seq![
        accounts[1].lamports,
        accounts[2].lamports,
        accounts[3].lamports,
        accounts[0].lamports,
    ]);
    let total = match sum_balances(held.as_slice()) {
        Some(total) => total,
        None => {
            return Err(InstructionError::Custom(HateFunError::Overflow));
        },
    };
    let (creator_cut, claimer_cut, winner_cut) = match calculate_payout_distribution(
        total,
        bucket.creator_fee_bps,
        bucket.claimer_fee_bps,
    ) {
        Some(cuts) => cuts,
        None => {
            return Err(InstructionError::Custom(HateFunError::Overflow));
        },
    };
    let mut balances = read_balances(accounts);
    assign_balance(accounts, &mut balances, &accounts[0].key, total);
    assign_balance(accounts, &mut balances, &accounts[1].key, 0);
    assign_balance(accounts, &mut balances, &accounts[2].key, 0);
    assign_balance(accounts, &mut balances, &accounts[3].key, 0);
    if !transfer_balance(accounts, &mut balances, 0, 4, creator_cut) {
        return Err(InstructionError::Custom(HateFunError::Overflow));
    }
    if !transfer_balance(accounts, &mut balances, 0, 5, claimer_cut) {
        return Err(InstructionError::Custom(HateFunError::Overflow));
    }
    if !transfer_balance(accounts, &mut balances, 0, 6, winner_cut) {
        return Err(InstructionError::Custom(HateFunError::Overflow));
    }
    store_balances(accounts, &balances);
    Ok(())
}

/// Claim timing: a claim never succeeds before the lead has stood for three
/// epochs. A claim that succeeds in some epoch is refused as too early in
/// every epoch before the third after the last flip, and succeeds alike in
/// every epoch from the third on.
pub proof fn lemma_claim_waits_for_cooldown(
    program_id: Pubkey,
    accounts: Seq<AccountView>,
    derived: DerivedAddresses,
    late: u64,
    epoch: u64,
)
    requires
        claim_spec(program_id, accounts, derived, Some(late)) is Ok,
    ensures
        late >= Bucket::decode(accounts[0].data).last_flip_epoch + 3,
        epoch < Bucket::decode(accounts[0].data).last_flip_epoch + 3 ==> claim_spec(
            program_id,
            accounts,
            derived,
            Some(epoch),
        ) == Err::<Seq<AccountView>, InstructionError>(
            InstructionError::Custom(HateFunError::ClaimTooEarly),
        ),
        epoch >= Bucket::decode(accounts[0].data).last_flip_epoch + 3 ==> claim_spec(
            program_id,
            accounts,
            derived,
            Some(epoch),
        ) == claim_spec(program_id, accounts, derived, Some(late)),
{
}

/// Where the seven accounts are seven different ones, a claim empties the
/// record, the pot and both escrows, and pays creator, claimer and winner
/// their cuts of all that these four held: nothing is lost and nothing made.
pub proof fn lemma_claim_pays_each_party(
    program_id: Pubkey,
    accounts: Seq<AccountView>,
    derived: DerivedAddresses,
    epoch: u64,
)
    requires
        claim_spec(program_id, accounts, derived, Some(epoch)) is Ok,
        all_distinct(accounts),
    ensures
        ({
            let after = claim_spec(program_id, accounts, derived, Some(epoch))->Ok_0;
            let bucket = Bucket::decode(accounts[0].data);
            let total = accounts[0].lamports + accounts[1].lamports + accounts[2].lamports
                + accounts[3].lamports;
            &&& after.len() == 7
            &&& total <= u64::MAX
            &&& payout_distribution(total as u64, bucket.creator_fee_bps, bucket.claimer_fee_bps)
                matches Some((creator_cut, claimer_cut, winner_cut))
            &&& creator_cut + claimer_cut + winner_cut == total
            &&& after[0].lamports == 0
            &&& after[1].lamports == 0
            &&& after[2].lamports == 0
            &&& after[3].lamports == 0
            &&& after[4].lamports == accounts[4].lamports + creator_cut
            &&& after[5].lamports == accounts[5].lamports + claimer_cut
            &&& after[6].lamports == accounts[6].lamports + winner_cut
        }),
{
    let held = seq![
        accounts[1].lamports,
        accounts[2].lamports,
        accounts[3].lamports,
        accounts[0].lamports,
    ];
    lemma_sum_of_four(held);
    assert(accounts[0].key != accounts[1].key);
    assert(accounts[0].key != accounts[2].key);
    assert(accounts[0].key != accounts[3].key);
    assert(accounts[0].key != accounts[4].key);
    assert(accounts[0].key != accounts[5].key);
    assert(accounts[0].key != accounts[6].key);
    assert(accounts[1].key != accounts[2].key);
    assert(accounts[1].key != accounts[3].key);
    assert(accounts[1].key != accounts[4].key);
    assert(accounts[1].key != accounts[5].key);
    assert(accounts[1].key != accounts[6].key);
    assert(accounts[2].key != accounts[3].key);
    assert(accounts[2].key != accounts[4].key);
    assert(accounts[2].key != accounts[5].key);
    assert(accounts[2].key != accounts[6].key);
    assert(accounts[3].key != accounts[4].key);
    assert(accounts[3].key != accounts[5].key);
    assert(accounts[3].key != accounts[6].key);
    assert(accounts[4].key != accounts[5].key);
    assert(accounts[4].key != accounts[6].key);
    assert(accounts[5].key != accounts[6].key);
}

/// Where the places that hold the same account hold the same balance before
/// a claim, they do so after it: every account is left with one balance.
pub proof fn lemma_claim_keeps_one_balance_each(
    program_id: Pubkey,
    accounts: Seq<AccountView>,
    derived: DerivedAddresses,
    clock: Option<u64>,
)
    requires
        claim_spec(program_id, accounts, derived, clock) is Ok,
        agree(accounts, balances_of(accounts)),
    ensures
        ({
            let after = claim_spec(program_id, accounts, derived, clock)->Ok_0;
            agree(after, balances_of(after))
        }),
{
    let bucket = Bucket::decode(accounts[0].data);
    let total = checked_sum(
        seq![
            accounts[1].lamports,
            accounts[2].lamports,
            accounts[3].lamports,
            accounts[0].lamports,
        ],
    )->0;
    let (creator_cut, claimer_cut, winner_cut) = payout_distribution(
        total,
        bucket.creator_fee_bps,
        bucket.claimer_fee_bps,
    )->0;
    let gathered = assigned(accounts, balances_of(accounts), accounts[0].key, total);
    let no_pot = assigned(accounts, gathered, accounts[1].key, 0);
    let no_escrow_a = assigned(accounts, no_pot, accounts[2].key, 0);
    let no_escrow_b = assigned(accounts, no_escrow_a, accounts[3].key, 0);
    let creator_paid = moved(accounts, no_escrow_b, 0, 4, creator_cut)->0;
    let claimer_paid = moved(accounts, creator_paid, 0, 5, claimer_cut)->0;
    let winner_paid = moved(accounts, claimer_paid, 0, 6, winner_cut)->0;
    lemma_assigned_agree(accounts, balances_of(accounts), accounts[0].key, total);
    lemma_assigned_agree(accounts, gathered, accounts[1].key, 0);
    lemma_assigned_agree(accounts, no_pot, accounts[2].key, 0);
    lemma_assigned_agree(accounts, no_escrow_a, accounts[3].key, 0);
    lemma_moved_agree(accounts, no_escrow_b, 0, 4, creator_cut);
    lemma_moved_agree(accounts, creator_paid, 0, 5, claimer_cut);
    lemma_moved_agree(accounts, claimer_paid, 0, 6, winner_cut);
    let after = with_balances(accounts, winner_paid);
    assert(balances_of(after) =~= winner_paid);
    assert forall|i: int, j: int|
        0 <= i < after.len() && 0 <= j < after.len() && after[i].key
            == after[j].key implies #[trigger] balances_of(after)[i] == #[trigger] balances_of(
        after,
    )[j] by {
        assert(accounts[i].key == accounts[j].key);
        assert(winner_paid[i] == winner_paid[j]);
    }
}

/// Settles the contest of the record at the first place of `accounts`:
/// derives the record's addresses, reads the ledger's clock, and carries out
/// the claim.
pub fn process_claim_payout(program_id: &Pubkey, accounts: &mut Vec<Account>, _data: &[u8]) -> (r:
    Result<(), InstructionError>)
    ensures
        exists|clock: Option<u64>|
            carried_out(
                #[trigger] claim_spec(
                    *program_id,
                    old(accounts).deep_view(),
                    derived_addresses(old(accounts)[0].key, *program_id),
                    clock,
                ),
                r,
                old(accounts).deep_view(),
                final(accounts).deep_view(),
            ),
{
    if accounts.len() != 7 {
        assert(carried_out(
            claim_spec(
                *program_id,
                old(accounts).deep_view(),
                derived_addresses(old(accounts)[0].key, *program_id),
                None,
            ),
            Err(InstructionError::NotEnoughAccountKeys),
            old(accounts).deep_view(),
            accounts.deep_view(),
        ));
        return Err(InstructionError::NotEnoughAccountKeys);
    }
    let derived = derive_addresses(&accounts[0].key, program_id);
    let clock = current_epoch();
    claim_payout(program_id, accounts, &derived, clock)
}

} // verus!
