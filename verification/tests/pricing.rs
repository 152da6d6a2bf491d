use friendtech::price::{
    DEFAULT_AVERAGE_VOLUME, DEFAULT_CURRENT_VOLUME, DEFAULT_TIME_SINCE_LAST_TRADE,
};
use friendtech::{
    base_price_from_holders, checked_settlement_amount, dual_phase_pricing, settlement_amount,
    MarketSignal, Price,
};

fn as_float(price: &Price) -> f64 {
    price.numerator as f64 / price.denominator as f64
}

/// Whether `price` is exactly `numerator / denominator`.
fn is_fraction(price: &Price, numerator: u128, denominator: u128) -> bool {
    price.denominator != 0 && price.numerator * denominator == numerator * price.denominator as u128
}

#[test]
fn test_dual_phase_pricing() {
    let base_price = as_float(&base_price_from_holders(5)); // Expected to be 0.5
    let volume_ratio = 10.0 / 7.0;
    let expected = base_price * (1.0 + 0.01 * volume_ratio);
    assert_eq!(as_float(&dual_phase_pricing(5, 10, 7, 1)), expected);

    assert_eq!(as_float(&dual_phase_pricing(5, 10, 7, 25)), base_price * (1.0 - 0.005));

    let base_price_high = as_float(&base_price_from_holders(15)); // Expected to be 6.0
    let expected_high = base_price_high * (1.0 + 0.01 * volume_ratio);
    assert_eq!(as_float(&dual_phase_pricing(15, 10, 7, 1)), expected_high);

    let base_price_exact = as_float(&base_price_from_holders(10)); // Expected to be 1.0
    let expected_exact = base_price_exact * (1.0 + 0.01 * volume_ratio);
    assert_eq!(as_float(&dual_phase_pricing(10, 10, 7, 1)), expected_exact);
}

#[test]
fn base_price_grows_by_a_tenth_up_to_ten_holders() {
    for holders in 0..=10u64 {
        let price = base_price_from_holders(holders);
        assert!(is_fraction(&price, holders as u128, 10), "holders = {}", holders);
    }
    assert_eq!(as_float(&base_price_from_holders(0)), 0.0);
    assert_eq!(as_float(&base_price_from_holders(5)), 0.5);
}

#[test]
fn base_price_grows_by_one_beyond_ten_holders() {
    for holders in [11u64, 12, 15, 100, 10_000, u64::MAX] {
        let price = base_price_from_holders(holders);
        assert!(is_fraction(&price, holders as u128 - 9, 1), "holders = {}", holders);
    }
    assert_eq!(as_float(&base_price_from_holders(15)), 6.0);
}

#[test]
fn base_price_jumps_at_the_boundary() {
    assert!(is_fraction(&base_price_from_holders(10), 1, 1));
    assert!(is_fraction(&base_price_from_holders(11), 2, 1));
    assert_eq!(as_float(&base_price_from_holders(10)), 1.0);
    assert_eq!(as_float(&base_price_from_holders(11)), 2.0);
}

#[test]
fn volume_premium_for_five_holders() {
    // 0.5 * (1 + 0.01 * 10 / 7) = 71 / 140
    let price = dual_phase_pricing(5, 10, 7, 1);
    assert!(is_fraction(&price, 71, 140));
    assert!((as_float(&price) - 0.50714286).abs() < 1e-8);
}

#[test]
fn inactivity_discount_for_five_holders() {
    // 0.5 * 0.995 = 0.4975
    let price = dual_phase_pricing(5, 10, 7, 25);
    assert!(is_fraction(&price, 4975, 10_000));
    assert_eq!(as_float(&price), 0.4975);
}

#[test]
fn volume_premium_for_fifteen_holders() {
    // 6.0 * (1 + 0.01 * 10 / 7) = 426 / 70
    let price = dual_phase_pricing(15, 10, 7, 1);
    assert!(is_fraction(&price, 426, 70));
    assert!((as_float(&price) - 6.0857143).abs() < 1e-7);
}

#[test]
fn discount_starts_after_twenty_four_hours() {
    // At 24 hours the premium still applies, at 25 the discount does.
    assert!(is_fraction(&dual_phase_pricing(20, 10, 7, 24), 11 * 710, 700));
    assert!(is_fraction(&dual_phase_pricing(20, 10, 7, 25), 11 * 995, 1000));
    // The discount does not look at the volumes.
    assert!(is_fraction(&dual_phase_pricing(20, 4_000_000, 1, 25), 11 * 995, 1000));
    assert!(is_fraction(&dual_phase_pricing(20, 0, u32::MAX, u32::MAX), 11 * 995, 1000));
}

#[test]
fn premium_follows_the_volume_ratio() {
    // No current volume: the base price itself.
    assert!(is_fraction(&dual_phase_pricing(12, 0, 7, 0), 3, 1));
    // Current volume a hundred times the average: twice the base price.
    assert!(is_fraction(&dual_phase_pricing(12, 700, 7, 0), 6, 1));
    // The ratio counts, not the volumes.
    assert!(is_fraction(&dual_phase_pricing(12, 1400, 14, 0), 6, 1));
}

#[test]
fn pricing_holds_at_the_largest_inputs() {
    let price = dual_phase_pricing(u64::MAX, u32::MAX, u32::MAX, 0);
    // (2^64 - 10) * 1.01
    assert!(is_fraction(&price, (u64::MAX as u128 - 9) * 101, 100));
    let price = dual_phase_pricing(u64::MAX, u32::MAX, 1, 0);
    assert!(is_fraction(&price, (u64::MAX as u128 - 9) * (100 + u32::MAX as u128), 100));
}

#[test]
fn settlement_amount_cuts_down_to_whole_units() {
    let price = dual_phase_pricing(5, 10, 7, 1); // 71 / 140
    assert_eq!(settlement_amount(&price, 0), 0);
    assert_eq!(settlement_amount(&price, 1), 0);
    assert_eq!(settlement_amount(&price, 2), 1);
    assert_eq!(settlement_amount(&price, 10), 5);
    assert_eq!(settlement_amount(&price, 139), 70);
    assert_eq!(settlement_amount(&price, 140), 71);
    assert_eq!(settlement_amount(&price, 141), 71);
    // 2.999... is cut down to 2, not rounded to 3.
    let almost_three = Price { numerator: 2_999_999, denominator: 1_000_000 };
    assert_eq!(settlement_amount(&almost_three, 1), 2);
}

#[test]
fn settlement_amount_is_capped_at_the_largest_unit() {
    let price = base_price_from_holders(u64::MAX);
    assert_eq!(settlement_amount(&price, 1), u64::MAX - 9);
    assert_eq!(settlement_amount(&price, 2), u64::MAX);
    assert_eq!(settlement_amount(&price, u64::MAX), u64::MAX);
    let huge = Price { numerator: u128::MAX, denominator: 1 };
    assert_eq!(settlement_amount(&huge, 0), 0);
    assert_eq!(settlement_amount(&huge, 1), u64::MAX);
    assert_eq!(settlement_amount(&huge, 2), u64::MAX);
    let below = Price { numerator: u64::MAX as u128, denominator: 1 };
    assert_eq!(settlement_amount(&below, 1), u64::MAX);
    let exact = Price { numerator: u128::MAX, denominator: u64::MAX };
    // (2^128 - 1) / (2^64 - 1) = 2^64 + 1
    assert_eq!(settlement_amount(&exact, 1), u64::MAX);
    let tiny = Price { numerator: 1, denominator: u64::MAX };
    assert_eq!(settlement_amount(&tiny, u64::MAX), 1);
    assert_eq!(settlement_amount(&tiny, u64::MAX - 1), 0);
}

#[test]
fn default_signal_carries_the_default_activity() {
    let signal = MarketSignal::default();
    assert_eq!(signal.current_volume, 10);
    assert_eq!(signal.average_volume, 7);
    assert_eq!(signal.time_since_last_trade, 1);
    assert_eq!(DEFAULT_CURRENT_VOLUME, 10);
    assert_eq!(DEFAULT_AVERAGE_VOLUME, 7);
    assert_eq!(DEFAULT_TIME_SINCE_LAST_TRADE, 1);
}

#[test]
fn checked_settlement_amount_is_exact_or_nothing() {
    let price = dual_phase_pricing(5, 10, 7, 1); // 71 / 140
    assert_eq!(checked_settlement_amount(&price, 0), Some(0));
    assert_eq!(checked_settlement_amount(&price, 1), Some(0));
    assert_eq!(checked_settlement_amount(&price, 140), Some(71));
    assert_eq!(checked_settlement_amount(&price, 141), Some(71));
    assert_eq!(checked_settlement_amount(&price, u64::MAX), Some(9_355_134_494_524_129_747));
    let price = base_price_from_holders(u64::MAX); // 2^64 - 10
    assert_eq!(checked_settlement_amount(&price, 1), Some(u64::MAX - 9));
    assert_eq!(checked_settlement_amount(&price, 2), None);
    let limit = Price { numerator: u64::MAX as u128, denominator: 1 };
    assert_eq!(checked_settlement_amount(&limit, 1), Some(u64::MAX));
    let above = Price { numerator: u64::MAX as u128 + 1, denominator: 1 };
    assert_eq!(checked_settlement_amount(&above, 1), None);
    let huge = Price { numerator: u128::MAX, denominator: 1 };
    assert_eq!(checked_settlement_amount(&huge, 0), Some(0));
    assert_eq!(checked_settlement_amount(&huge, 2), None);
    // (2^128 - 1) / (2^64 - 1) = 2^64 + 1
    let exact = Price { numerator: u128::MAX, denominator: u64::MAX };
    assert_eq!(checked_settlement_amount(&exact, 1), None);
}
