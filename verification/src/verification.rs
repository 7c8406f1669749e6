//! The arithmetic core: thresholds, fee splits and checked sums. All arithmetic
//! on balances goes through the three functions `calculate_flush_threshold`,
//! `calculate_payout_distribution` and `sum_balances`.

use vstd::prelude::*;

verus! {

/// The largest sum of creator and claimer fee, in basis points (20%).
pub const MAX_TOTAL_FEE_BPS: u16 = 2_000;

/// The smallest minimum increase, in basis points (1%).
pub const MIN_INCREASE_BPS: u16 = 100;

/// The largest minimum increase, in basis points (50%).
pub const MAX_INCREASE_BPS: u16 = 5_000;

/// The share of `total` that `fee_bps` basis points stand for, rounded down.
/// 10,000 basis points are the whole.
pub open spec fn fee_cut(total: nat, fee_bps: nat) -> nat {
    total * fee_bps / 10_000
}

/// The balance an escrow must reach to win a flush after `last_swap` won the
/// previous one: `last_swap` raised by `min_increase_bps` basis points, rounded down.
pub open spec fn flush_threshold(last_swap: nat, min_increase_bps: nat) -> nat {
    last_swap * (10_000 + min_increase_bps) / 10_000
}

/// The threshold as the ledger's amounts can hold it: `None` where it exceeds `u64`.
pub open spec fn checked_flush_threshold(last_swap: u64, min_increase_bps: u16) -> Option<u64> {
    let threshold = flush_threshold(last_swap as nat, min_increase_bps as nat);
    if threshold <= u64::MAX {
        Some(threshold as u64)
    } else {
        None
    }
}

/// The split of `total` into the creator's cut, the claimer's cut and the
/// winner's remainder: `None` where the two cuts together exceed `total`.
pub open spec fn payout_distribution(
    total: u64,
    creator_fee_bps: u16,
    claimer_fee_bps: u16,
) -> Option<(u64, u64, u64)> {
    let creator_cut = fee_cut(total as nat, creator_fee_bps as nat);
    let claimer_cut = fee_cut(total as nat, claimer_fee_bps as nat);
    if creator_cut + claimer_cut <= total {
        Some((creator_cut as u64, claimer_cut as u64, (total - creator_cut - claimer_cut) as u64))
    } else {
        None
    }
}

/// The sum of all balances in `balances`.
pub open spec fn balance_sum(balances: Seq<u64>) -> nat
    decreases balances.len(),
{
    if balances.len() == 0 {
        0
    } else {
        balance_sum(balances.drop_last()) + balances.last() as nat
    }
}

/// The sum of `balances` as one amount: `None` where it exceeds `u64`.
pub open spec fn checked_sum(balances: Seq<u64>) -> Option<u64> {
    if balance_sum(balances) <= u64::MAX {
        Some(balance_sum(balances) as u64)
    } else {
        None
    }
}

/// A threshold is the last winning amount plus its minimum increase.
pub proof fn lemma_threshold_is_last_swap_plus_increase(last_swap: nat, min_increase_bps: nat)
    ensures
        flush_threshold(last_swap, min_increase_bps) == last_swap + fee_cut(
            last_swap,
            min_increase_bps,
        ),
{
    let x = last_swap * min_increase_bps;
    assert(last_swap * (10_000 + min_increase_bps) == last_swap * 10_000 + x) by (nonlinear_arith)
        requires
            x == last_swap * min_increase_bps,
    ;
    assert((last_swap * 10_000 + x) / 10_000 == last_swap + x / 10_000) by (nonlinear_arith);
}

/// Two cuts whose rates together do not exceed the whole never exceed the total.
pub proof fn lemma_cuts_within_total(total: nat, creator_fee_bps: nat, claimer_fee_bps: nat)
    requires
        creator_fee_bps + claimer_fee_bps <= 10_000,
    ensures
        fee_cut(total, creator_fee_bps) + fee_cut(total, claimer_fee_bps) <= total,
{
    let a = total * creator_fee_bps;
    let b = total * claimer_fee_bps;
    assert(a / 10_000 + b / 10_000 <= (a + b) / 10_000) by (nonlinear_arith)
        requires
            a >= 0,
            b >= 0,
    ;
    assert(a + b <= total * 10_000) by (nonlinear_arith)
        requires
            a == total * creator_fee_bps,
            b == total * claimer_fee_bps,
            creator_fee_bps + claimer_fee_bps <= 10_000,
    ;
    assert((a + b) / 10_000 <= total) by (nonlinear_arith)
        requires
            a + b <= total * 10_000,
    ;
}

/// The sum of a prefix never exceeds the sum of the whole.
pub proof fn lemma_prefix_sum_within_sum(balances: Seq<u64>, n: int)
    requires
        0 <= n <= balances.len(),
    ensures
        balance_sum(balances.take(n)) <= balance_sum(balances),
    decreases balances.len() - n,
{
    if n == balances.len() {
        assert(balances.take(n) =~= balances);
    } else {
        lemma_prefix_sum_within_sum(balances, n + 1);
        assert(balances.take(n + 1).drop_last() =~= balances.take(n));
    }
}

/// Computes the balance an escrow must reach to win the next flush. The product
/// is taken in a wider type, so the only failure is a threshold beyond `u64`.
pub fn calculate_flush_threshold(last_swap: u64, min_increase_bps: u16) -> (r: Option<u64>)
    ensures
        r == checked_flush_threshold(last_swap, min_increase_bps),
        r matches Some(threshold) ==> threshold >= last_swap,
{
    let factor: u128 = 10_000u128 + min_increase_bps as u128;
    assert(last_swap as u128 * factor <= 0xffff_ffff_ffff_ffff * 75_535) by (nonlinear_arith)
        requires
            last_swap <= 0xffff_ffff_ffff_ffff,
            factor <= 75_535,
    ;
    let threshold: u128 = (last_swap as u128 * factor) / 10_000u128;
    proof {
        lemma_threshold_is_last_swap_plus_increase(last_swap as nat, min_increase_bps as nat);
    }
    if threshold > u64::MAX as u128 {
        None
    } else {
        Some(threshold as u64)
    }
}

/// Splits `total` between creator, claimer and winner. Each fee is rounded down
/// and the winner takes the rest, so the three parts always add up to `total`.
/// Fails only where the two fees together exceed `total`, which rates of at
/// most 100% in sum never do.
pub fn calculate_payout_distribution(total: u64, creator_fee_bps: u16, claimer_fee_bps: u16) -> (r:
    Option<(u64, u64, u64)>)
    ensures
        r == payout_distribution(total, creator_fee_bps, claimer_fee_bps),
        r matches Some((creator_cut, claimer_cut, winner_cut)) ==> creator_cut + claimer_cut
            + winner_cut == total,
        creator_fee_bps + claimer_fee_bps <= 10_000 ==> r is Some,
{
    assert(total as u128 * creator_fee_bps as u128 <= 0xffff_ffff_ffff_ffff * 0xffff)
        by (nonlinear_arith)
        requires
            total <= 0xffff_ffff_ffff_ffff,
            creator_fee_bps <= 0xffff,
    ;
    assert(total as u128 * claimer_fee_bps as u128 <= 0xffff_ffff_ffff_ffff * 0xffff)
        by (nonlinear_arith)
        requires
            total <= 0xffff_ffff_ffff_ffff,
            claimer_fee_bps <= 0xffff,
    ;
    let creator_cut: u128 = (total as u128 * creator_fee_bps as u128) / 10_000u128;
    let claimer_cut: u128 = (total as u128 * claimer_fee_bps as u128) / 10_000u128;
    proof {
        if creator_fee_bps + claimer_fee_bps <= 10_000 {
            lemma_cuts_within_total(total as nat, creator_fee_bps as nat, claimer_fee_bps as nat);
        }
    }
    if creator_cut > u64::MAX as u128 || claimer_cut > u64::MAX as u128 {
        return None;
    }
    let creator_cut: u64 = creator_cut as u64;
    let claimer_cut: u64 = claimer_cut as u64;
    match total.checked_sub(creator_cut) {
        None => None,
        Some(rest) => match rest.checked_sub(claimer_cut) {
            None => None,
            Some(winner_cut) => Some((creator_cut, claimer_cut, winner_cut)),
        },
    }
}

/// Adds up `balances`, failing instead of wrapping where the sum leaves `u64`.
pub fn sum_balances(balances: &[u64]) -> (r: Option<u64>)
    ensures
        r == checked_sum(balances@),
{
    let mut total: u64 = 0;
    let mut i: usize = 0;
    while i < balances.len()
        invariant
            0 <= i <= balances.len(),
            total == balance_sum(balances@.take(i as int)),
        decreases balances.len() - i,
    {
        proof {
            assert(balances@.take(i + 1).drop_last() =~= balances@.take(i as int));
            lemma_prefix_sum_within_sum(balances@, i + 1);
        }
        match total.checked_add(balances[i]) {
            None => {
                return None;
            },
            Some(next) => {
                total = next;
            },
        }
        i = i + 1;
    }
    proof {
        assert(balances@.take(i as int) =~= balances@);
    }
    Some(total)
}

/// Whether the two fees together stay within the maximum of 20%.
pub fn validate_fees(creator_fee_bps: u16, claimer_fee_bps: u16) -> (valid: bool)
    ensures
        valid <==> creator_fee_bps + claimer_fee_bps <= 2_000,
{
    creator_fee_bps as u32 + claimer_fee_bps as u32 <= MAX_TOTAL_FEE_BPS as u32
}

/// Whether the minimum increase lies between 1% and 50%.
pub fn validate_min_increase(min_increase_bps: u16) -> (valid: bool)
    ensures
        valid <==> 100 <= min_increase_bps <= 5_000,
{
    min_increase_bps >= MIN_INCREASE_BPS && min_increase_bps <= MAX_INCREASE_BPS
}

/// Whether an escrow counts as empty: its balance is at most `dust_threshold`.
pub fn is_escrow_empty(balance: u64, dust_threshold: u64) -> (empty: bool)
    ensures
        empty <==> balance <= dust_threshold,
{
    balance <= dust_threshold
}

/// Conservation: with fees of at most 100% in sum the split succeeds, and its
/// three parts add up to the total exactly.
pub proof fn lemma_payout_conserves_total(total: u64, creator_fee_bps: u16, claimer_fee_bps: u16)
    requires
        creator_fee_bps + claimer_fee_bps <= 10_000,
    ensures
        payout_distribution(total, creator_fee_bps, claimer_fee_bps) matches Some(
            (creator_cut, claimer_cut, winner_cut),
        ) && creator_cut + claimer_cut + winner_cut == total,
{
    lemma_cuts_within_total(total as nat, creator_fee_bps as nat, claimer_fee_bps as nat);
}

/// Threshold monotonicity: for a last winning amount of at most `u64::MAX / 15000`
/// and a valid minimum increase the threshold exists, is at least the last
/// winning amount, and exceeds it by at least the minimum increase.
pub proof fn lemma_threshold_monotonic(last_swap: u64, min_increase_bps: u16)
    requires
        last_swap <= u64::MAX / 15_000,
        100 <= min_increase_bps <= 5_000,
    ensures
        checked_flush_threshold(last_swap, min_increase_bps) matches Some(threshold) && threshold
            >= last_swap && threshold - last_swap >= fee_cut(
            last_swap as nat,
            min_increase_bps as nat,
        ),
{
    lemma_threshold_is_last_swap_plus_increase(last_swap as nat, min_increase_bps as nat);
    assert(last_swap * min_increase_bps <= last_swap * 5_000) by (nonlinear_arith)
        requires
            min_increase_bps <= 5_000,
    ;
}

/// From the smallest baseline a contest can start with, every threshold lies
/// strictly above the last winning amount.
pub proof fn lemma_threshold_strictly_above(last_swap: u64, min_increase_bps: u16)
    requires
        last_swap >= 100_000,
        min_increase_bps >= 100,
    ensures
        flush_threshold(last_swap as nat, min_increase_bps as nat) > last_swap,
{
    lemma_threshold_is_last_swap_plus_increase(last_swap as nat, min_increase_bps as nat);
    assert(last_swap * min_increase_bps >= 100_000 * 100) by (nonlinear_arith)
        requires
            last_swap >= 100_000,
            min_increase_bps >= 100,
    ;
}

/// At the highest fee of 20% for the creator alone, the split always succeeds:
/// the creator takes a fifth, rounded down, the claimer nothing, and the
/// winner at most the total.
pub proof fn lemma_max_fee_payout(total: u64)
    ensures
        payout_distribution(total, 2_000, 0) == Some(
            ((total / 5) as u64, 0u64, (total - total / 5) as u64),
        ),
{
    lemma_cuts_within_total(total as nat, 2_000, 0);
    assert(total * 2_000 / 10_000 == total / 5) by (nonlinear_arith);
    assert(total * 0 / 10_000 == 0) by (nonlinear_arith);
}

/// No balance exceeds a sum that it is part of.
pub proof fn lemma_sum_bounds_each_balance(balances: Seq<u64>, i: int)
    requires
        0 <= i < balances.len(),
    ensures
        balances[i] <= balance_sum(balances),
{
    lemma_prefix_sum_within_sum(balances, i + 1);
    assert(balances.take(i + 1).last() == balances[i]);
}

/// Four balances of at most 10^18 each always have a sum.
pub proof fn lemma_sum_of_four_fits(balances: Seq<u64>)
    requires
        balances.len() == 4,
        forall|i: int| 0 <= i < 4 ==> balances[i] <= 1_000_000_000_000_000_000,
    ensures
        checked_sum(balances) is Some,
{
    lemma_sum_of_four(balances);
}

/// The sum of four balances, written out.
pub proof fn lemma_sum_of_four(balances: Seq<u64>)
    requires
        balances.len() == 4,
    ensures
        balance_sum(balances) == balances[0] + balances[1] + balances[2] + balances[3],
{
    let s3 = balances.drop_last();
    let s2 = s3.drop_last();
    let s1 = s2.drop_last();
    let s0 = s1.drop_last();
    assert(balance_sum(s0) == 0);
    assert(balance_sum(s1) == balance_sum(s0) + s1.last());
    assert(balance_sum(s2) == balance_sum(s1) + s2.last());
    assert(balance_sum(s3) == balance_sum(s2) + s3.last());
}

} // verus!
