use defi_adapters::decimal::Decimal;
use defi_adapters::error::LendingError;
use defi_adapters::math::{calculate_shares_to_give, calculate_underlying_to_withdraw, WAD};
use defi_adapters::rate::Rate;

#[test]
fn whole_tokens_round_to_themselves() {
    for x in [0u64, 1, 7, 1_000_000, u64::MAX] {
        let d = Decimal::from_u64(x);
        assert_eq!(d.try_floor_u64(), Ok(x));
        assert_eq!(d.try_round_u64(), Ok(x));
        assert_eq!(d.try_ceil_u64(), Ok(x));
    }
}

#[test]
fn decimal_rounding_of_fractions() {
    // 2.5 rounds to 3, floors to 2, ceils to 3.
    let d = Decimal::from_scaled_val(2_500_000_000_000_000_000);
    assert_eq!(d.try_round_u64(), Ok(3));
    assert_eq!(d.try_floor_u64(), Ok(2));
    assert_eq!(d.try_ceil_u64(), Ok(3));
    // 2.4 rounds to 2.
    let d = Decimal::from_scaled_val(2_400_000_000_000_000_000);
    assert_eq!(d.try_round_u64(), Ok(2));
    assert_eq!(d.try_ceil_u64(), Ok(3));
}

#[test]
fn decimal_arithmetic_exact_values() {
    let a = Decimal::from_u64(6);
    let b = Decimal::from_u64(4);
    assert_eq!(a.try_add(b).unwrap().try_floor_u64(), Ok(10));
    assert_eq!(a.try_sub(b).unwrap().try_floor_u64(), Ok(2));
    assert_eq!(b.try_sub(a), Err(LendingError::MathOverflow));
    assert_eq!(a.try_mul(b).unwrap().try_floor_u64(), Ok(24));
    // 6 / 4 = 1.5
    assert_eq!(a.try_div(b).unwrap().to_scaled_val(), Ok(1_500_000_000_000_000_000));
    assert_eq!(a.try_div_u64(4).unwrap().to_scaled_val(), Ok(1_500_000_000_000_000_000));
    assert_eq!(a.try_div_u64(0), Err(LendingError::MathOverflow));
    assert_eq!(a.try_mul_u64(5).unwrap().try_floor_u64(), Ok(30));
    assert_eq!(Decimal::from_percent(25).to_scaled_val(), Ok(250_000_000_000_000_000));
    assert_eq!(Decimal::one().to_scaled_val(), Ok(WAD as u128));
    assert!(Decimal::zero().is_zero());
    assert!(b.lt(&a) && b.le(&a) && !a.lt(&b));
    assert!(a.min(b).eq(&b));
}

#[test]
fn decimal_with_rate() {
    let d = Decimal::from_u64(200);
    let half = Rate::from_percent(50);
    assert_eq!(d.try_mul_rate(half).unwrap().try_floor_u64(), Ok(100));
    assert_eq!(d.try_div_rate(half).unwrap().try_floor_u64(), Ok(400));
    assert_eq!(Rate::try_from_decimal(Decimal::from_percent(10)).unwrap().to_scaled_val(), 100_000_000_000_000_000);
}

#[test]
fn rate_arithmetic_exact_values() {
    let r = Rate::from_percent(10);
    assert_eq!(r.to_scaled_val(), 100_000_000_000_000_000);
    assert_eq!(Rate::one().to_scaled_val(), WAD as u128);
    assert_eq!(Rate::zero().to_scaled_val(), 0);
    assert_eq!(r.try_add(Rate::from_percent(5)).unwrap().to_scaled_val(), 150_000_000_000_000_000);
    assert_eq!(r.try_sub(Rate::from_percent(5)).unwrap().to_scaled_val(), 50_000_000_000_000_000);
    assert_eq!(Rate::from_percent(5).try_sub(r), Err(LendingError::MathOverflow));
    assert_eq!(r.try_mul(r).unwrap().to_scaled_val(), 10_000_000_000_000_000);
    assert_eq!(r.try_div(Rate::from_percent(20)).unwrap().to_scaled_val(), 500_000_000_000_000_000);
    assert_eq!(r.try_mul_u64(3).unwrap().to_scaled_val(), 300_000_000_000_000_000);
    assert_eq!(r.try_div_u64(2).unwrap().to_scaled_val(), 50_000_000_000_000_000);
    assert_eq!(Rate::from_scaled_val(1_500_000_000_000_000_000).try_round_u64(), Ok(2));
    assert_eq!(Rate::from_scaled_val(1_500_000_000_000_000_000).try_floor_u64(), Ok(1));
}

#[test]
fn rate_powers() {
    // 1.1^2 = 1.21
    let r = Rate::from_scaled_val(1_100_000_000_000_000_000);
    assert_eq!(r.try_pow(2).unwrap().to_scaled_val(), 1_210_000_000_000_000_000);
    assert_eq!(r.try_pow(0).unwrap().to_scaled_val(), WAD as u128);
    assert_eq!(Rate::one().try_pow(1000).unwrap().to_scaled_val(), WAD as u128);
}

#[test]
fn vault_share_conversions() {
    assert_eq!(calculate_underlying_to_withdraw(10, 100, 1000), 100);
    assert_eq!(calculate_shares_to_give(100, 100, 1000), 10);
    // rounded down
    assert_eq!(calculate_shares_to_give(15, 100, 1000), 1);
    assert_eq!(calculate_underlying_to_withdraw(1, 3, 10), 3);
}

#[test]
fn vault_share_roundtrip_rounds_down() {
    for (amount, shares, balance) in [(15u64, 100u64, 1000u64), (7, 3, 10), (999, 1000, 1001), (1, 1, 1)] {
        let given = calculate_shares_to_give(amount, shares, balance);
        let back = calculate_underlying_to_withdraw(given, shares, balance);
        assert!(back <= amount);
    }
}

#[test]
fn rounding_down_nearest_up_are_ordered() {
    for scaled in [0u128, 1, 499_999_999_999_999_999, 500_000_000_000_000_000, 1_999_999_999_999_999_999, 7 * WAD as u128 + 3] {
        let d = Decimal::from_scaled_val(scaled);
        let f = d.try_floor_u64().unwrap();
        let r = d.try_round_u64().unwrap();
        let c = d.try_ceil_u64().unwrap();
        assert!(f <= r && r <= c && c <= f + 1);
    }
    let d = Decimal::from_scaled_val(1_999_999_999_999_999_999);
    assert_eq!((d.try_floor_u64(), d.try_round_u64(), d.try_ceil_u64()), (Ok(1), Ok(2), Ok(2)));
}
