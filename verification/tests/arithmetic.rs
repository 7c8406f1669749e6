use hate_fun::verification::{
    calculate_flush_threshold, calculate_payout_distribution, is_escrow_empty, sum_balances,
    validate_fees, validate_min_increase,
};

#[test]
fn test_threshold_calculation() {
    // 5% increase
    let result = calculate_flush_threshold(1_000_000_000, 500);
    assert_eq!(result, Some(1_050_000_000));

    // 1% increase
    let result = calculate_flush_threshold(1_000_000_000, 100);
    assert_eq!(result, Some(1_010_000_000));

    // 50% increase
    let result = calculate_flush_threshold(1_000_000_000, 5000);
    assert_eq!(result, Some(1_500_000_000));
}

#[test]
fn test_payout_distribution() {
    let result = calculate_payout_distribution(10_000_000_000, 500, 50);
    assert!(result.is_some());

    let (creator, claimer, winner) = result.unwrap();
    assert_eq!(creator, 500_000_000);
    assert_eq!(claimer, 50_000_000);
    assert_eq!(winner, 9_450_000_000);

    assert_eq!(creator + claimer + winner, 10_000_000_000);
}

#[test]
fn verification_test_fee_validation() {
    assert!(validate_fees(500, 50));
    assert!(validate_fees(1000, 1000));
    assert!(!validate_fees(1500, 1000));
    assert!(!validate_fees(2001, 0));
}

#[test]
fn test_hf01_vulnerability() {
    let dust_threshold = 10_000_000;

    assert!(is_escrow_empty(5_000_000, dust_threshold));
    assert!(is_escrow_empty(9_999_999, dust_threshold));

    assert!(!is_escrow_empty(10_000_001, dust_threshold));
}

#[test]
fn test_calculate_threshold() {
    let last_swap = 1_000_000;
    let min_increase_bps = 500;

    let threshold = last_swap * (10000 + min_increase_bps as u64) / 10000;
    assert_eq!(threshold, 1_050_000);
    assert_eq!(calculate_flush_threshold(last_swap, min_increase_bps), Some(1_050_000));
}

#[test]
fn test_calculate_fees() {
    let total = 10_000_000;
    let creator_fee_bps = 500;
    let claimer_fee_bps = 50;

    let creator_cut = (total as u128 * creator_fee_bps as u128 / 10000) as u64;
    let claimer_cut = (total as u128 * claimer_fee_bps as u128 / 10000) as u64;
    let winner_cut = total - creator_cut - claimer_cut;

    assert_eq!(creator_cut, 500_000);
    assert_eq!(claimer_cut, 50_000);
    assert_eq!(winner_cut, 9_450_000);
    assert_eq!(creator_cut + claimer_cut + winner_cut, total);
    assert_eq!(
        calculate_payout_distribution(total, creator_fee_bps, claimer_fee_bps),
        Some((500_000, 50_000, 9_450_000))
    );
}

#[test]
fn integration_test_test_fee_validation() {
    let creator_fee = 1500;
    let claimer_fee = 500;
    assert!(creator_fee + claimer_fee <= 2000, "Combined fees must be <= 20%");
    assert!(validate_fees(creator_fee, claimer_fee), "Combined fees must be <= 20%");

    let creator_fee = 1500;
    let claimer_fee = 600;
    assert!(creator_fee + claimer_fee > 2000, "Should reject fees > 20%");
    assert!(!validate_fees(creator_fee, claimer_fee), "Should reject fees > 20%");
}

#[test]
fn test_min_increase_bounds() {
    assert!(validate_min_increase(100), "1% should be valid");
    assert!(validate_min_increase(5000), "50% should be valid");
    assert!(!validate_min_increase(50), "0.5% should be invalid");
    assert!(!validate_min_increase(5001), "50.01% should be invalid");
}

#[test]
fn threshold_rounds_down() {
    assert_eq!(calculate_flush_threshold(100_001, 100), Some(101_001));
    assert_eq!(calculate_flush_threshold(199, 100), Some(200));
    assert_eq!(calculate_flush_threshold(99, 100), Some(99));
    assert_eq!(calculate_flush_threshold(0, 5000), Some(0));
}

#[test]
fn threshold_fails_only_beyond_u64() {
    assert_eq!(calculate_flush_threshold(u64::MAX, 100), None);
    assert_eq!(calculate_flush_threshold(u64::MAX, 0), Some(u64::MAX));
    // The product leaves u64, the threshold does not.
    assert_eq!(
        calculate_flush_threshold(10_000_000_000_000_000_000, 5000),
        Some(15_000_000_000_000_000_000)
    );
    assert_eq!(calculate_flush_threshold(12_297_829_382_473_034_410, 5000), Some(u64::MAX));
    assert_eq!(calculate_flush_threshold(12_297_829_382_473_034_411, 5000), None);
}

#[test]
fn threshold_is_monotonic_in_range() {
    let top = u64::MAX / 15000;
    for last_swap in [0, 1, 99, 100_000, 1_000_000_007, top - 1, top] {
        for bps in [100u16, 101, 500, 4999, 5000] {
            let threshold = calculate_flush_threshold(last_swap, bps).unwrap();
            let increase = (last_swap as u128 * bps as u128 / 10000) as u64;
            assert!(threshold >= last_swap);
            assert!(threshold - last_swap >= increase);
            assert_eq!(threshold, last_swap + increase);
        }
    }
}

#[test]
fn payout_conserves_total() {
    for total in [0u64, 1, 3, 9_999, 10_000, 10_001, 123_456_789_123, u64::MAX - 1, u64::MAX] {
        for (creator, claimer) in [(0u16, 0u16), (2000, 0), (0, 2000), (1999, 1), (500, 50), (1, 1)]
        {
            let (c, k, w) = calculate_payout_distribution(total, creator, claimer).unwrap();
            assert_eq!(c as u128 + k as u128 + w as u128, total as u128);
            assert_eq!(c as u128, total as u128 * creator as u128 / 10000);
            assert_eq!(k as u128, total as u128 * claimer as u128 / 10000);
        }
    }
}

#[test]
fn payout_at_the_highest_fee() {
    assert_eq!(calculate_payout_distribution(u64::MAX, 2000, 0), Some((
        u64::MAX / 5,
        0,
        u64::MAX - u64::MAX / 5
    )));
    assert_eq!(calculate_payout_distribution(7, 2000, 0), Some((1, 0, 6)));
}

#[test]
fn payout_fails_where_fees_exceed_the_total() {
    assert_eq!(calculate_payout_distribution(10_000, 6000, 6000), None);
    assert_eq!(calculate_payout_distribution(u64::MAX, 65535, 0), None);
    assert_eq!(calculate_payout_distribution(10_000, 10_000, 0), Some((10_000, 0, 0)));
    assert_eq!(calculate_payout_distribution(10_000, 5000, 5000), Some((5_000, 5_000, 0)));
    // Rounding down lets fees of more than the whole pass on a small total.
    assert_eq!(calculate_payout_distribution(1, 9999, 9999), Some((0, 0, 1)));
}

#[test]
fn sum_of_balances() {
    assert_eq!(sum_balances(&[]), Some(0));
    assert_eq!(sum_balances(&[5]), Some(5));
    assert_eq!(sum_balances(&[1, 2, 3, 4]), Some(10));
    assert_eq!(sum_balances(&[u64::MAX, 0, 0]), Some(u64::MAX));
    assert_eq!(sum_balances(&[u64::MAX - 1, 1]), Some(u64::MAX));
}

#[test]
fn sum_of_balances_fails_instead_of_wrapping() {
    assert_eq!(sum_balances(&[u64::MAX, 1]), None);
    assert_eq!(sum_balances(&[1, u64::MAX]), None);
    assert_eq!(sum_balances(&[u64::MAX, 1, 0, 0]), None);
    assert_eq!(sum_balances(&[u64::MAX / 2 + 1, u64::MAX / 2 + 1]), None);
}

#[test]
fn sum_of_four_realistic_balances() {
    let each = 1_000_000_000_000_000_000u64;
    let balances = [each, each, each, each];
    let total = sum_balances(&balances).unwrap();
    assert_eq!(total, 4_000_000_000_000_000_000);
    for balance in balances {
        assert!(balance <= total);
    }
}

#[test]
fn fee_bound_is_two_thousand() {
    for creator in [0u16, 1, 999, 1000, 1001, 1999, 2000, 2001, 40_000, u16::MAX] {
        for claimer in [0u16, 1, 999, 1000, 1001, 1999, 2000, 2001, 40_000, u16::MAX] {
            assert_eq!(
                validate_fees(creator, claimer),
                creator as u32 + claimer as u32 <= 2000
            );
        }
    }
}

#[test]
fn min_increase_bounds_on_every_rate() {
    for bps in 0..=u16::MAX {
        assert_eq!(validate_min_increase(bps), (100..=5000).contains(&bps));
    }
}

#[test]
fn escrow_is_empty_up_to_the_threshold() {
    assert!(is_escrow_empty(0, 0));
    assert!(!is_escrow_empty(1, 0));
    assert!(is_escrow_empty(890_880, 890_880));
    assert!(!is_escrow_empty(890_881, 890_880));
    assert!(is_escrow_empty(u64::MAX, u64::MAX));
}
