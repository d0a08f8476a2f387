use defi_adapters::decimal::Decimal;
use defi_adapters::error::LendingError;
use defi_adapters::last_update::LastUpdate;
use defi_adapters::lending_obligation::{
    InitLendingObligationParams, LendingObligation, LendingObligationCollateral,
    LendingObligationLiquidity,
};
use defi_adapters::pubkey::Pubkey;
use defi_adapters::rate::Rate;
use defi_adapters::reserve::{
    FeeCalculation, InitReserveParams, NewReserveCollateralParams, NewReserveLiquidityParams, Reserve,
    ReserveCollateral, ReserveConfig, ReserveFees, ReserveLiquidity, INITIAL_COLLATERAL_RATE,
    PROGRAM_VERSION,
};
use defi_adapters::reserve_layout::{RESERVE_LEN};

fn key(b: u8) -> Pubkey {
    Pubkey([b; 32])
}

fn fees(borrow_fee_wad: u64, flash_loan_fee_wad: u64, host_fee_percentage: u8) -> ReserveFees {
    ReserveFees { borrow_fee_wad, flash_loan_fee_wad, host_fee_percentage }
}

fn config() -> ReserveConfig {
    ReserveConfig {
        optimal_utilization_rate: 80,
        degen_utilization_rate: 90,
        loan_to_value_ratio: 50,
        liquidation_bonus: 5,
        liquidation_threshold: 55,
        min_borrow_rate: 0,
        optimal_borrow_rate: 4,
        degen_borrow_rate: 20,
        max_borrow_rate: 30,
        fees: fees(0, 0, 0),
    }
}

fn liquidity(available: u64, borrowed: u64) -> ReserveLiquidity {
    let mut l = ReserveLiquidity::new(NewReserveLiquidityParams {
        mint_pubkey: key(1),
        mint_decimals: 0,
        supply_pubkey: key(2),
        fee_receiver: key(3),
        oracle_pubkey: key(4),
        market_price: Decimal::from_u64(1),
        platform_fees: 0,
    });
    l.available_amount = available;
    l.borrowed_amount_wads = Decimal::from_u64(borrowed);
    l
}

fn reserve(available: u64, borrowed: u64, collateral_supply: u64) -> Reserve {
    let mut collateral = ReserveCollateral::new(NewReserveCollateralParams { mint_pubkey: key(5), supply_pubkey: key(6) });
    collateral.mint_total_supply = collateral_supply;
    Reserve::new(InitReserveParams {
        current_slot: 10,
        lending_market: key(7),
        borrow_authorizer: key(8),
        liquidity: liquidity(available, borrowed),
        collateral,
        config: config(),
    })
}

#[test]
fn new_reserve_starts_stale_at_its_slot() {
    let r = reserve(0, 0, 0);
    assert_eq!(r.version, PROGRAM_VERSION);
    assert_eq!(r.last_update.slot, 10);
    assert!(r.last_update.stale);
    assert!(r.is_initialized());
    assert_eq!(r.liquidity.cumulative_borrow_rate_wads, Decimal::one());
}

#[test]
fn liquidity_deposit_then_withdraw_restores() {
    let start = liquidity(100, 0);
    let mut l = start;
    assert_eq!(l.deposit(50), Ok(()));
    assert_eq!(l.available_amount, 150);
    assert_eq!(l.withdraw(50), Ok(()));
    assert_eq!(l, start);
}

#[test]
fn liquidity_deposit_overflow_and_withdraw_shortfall() {
    let mut l = liquidity(u64::MAX, 0);
    assert_eq!(l.deposit(1), Err(LendingError::MathOverflow));
    assert_eq!(l.available_amount, u64::MAX);
    let mut l = liquidity(10, 0);
    assert_eq!(l.withdraw(11), Err(LendingError::InsufficientLiquidity));
    assert_eq!(l.available_amount, 10);
}

#[test]
fn collateral_mint_then_burn_restores() {
    let start = ReserveCollateral::new(NewReserveCollateralParams { mint_pubkey: key(5), supply_pubkey: key(6) });
    let mut c = start;
    assert_eq!(c.mint(40), Ok(()));
    assert_eq!(c.mint_total_supply, 40);
    assert_eq!(c.burn(40), Ok(()));
    assert_eq!(c, start);
    assert_eq!(c.burn(1), Err(LendingError::MathOverflow));
}

#[test]
fn total_supply_and_utilization() {
    let l = liquidity(60, 40);
    assert_eq!(l.total_supply().unwrap().try_floor_u64(), Ok(100));
    assert_eq!(l.utilization_rate().unwrap().to_scaled_val(), 400_000_000_000_000_000);
    assert_eq!(liquidity(0, 0).utilization_rate().unwrap().to_scaled_val(), 0);
}

#[test]
fn initial_exchange_rate_then_proportional() {
    // Nothing minted yet: the initial rate, one collateral token per liquidity token.
    let r = reserve(0, 0, 0);
    let rate = r.collateral_exchange_rate().unwrap();
    assert_eq!(rate.into_rate().to_scaled_val(), INITIAL_COLLATERAL_RATE as u128);
    // 100 liquidity backs 50 collateral: half a collateral token per liquidity token.
    let r = reserve(100, 0, 50);
    let rate = r.collateral_exchange_rate().unwrap();
    assert_eq!(rate.liquidity_to_collateral(10), Ok(5));
    assert_eq!(rate.collateral_to_liquidity(5), Ok(10));
    assert_eq!(rate.decimal_liquidity_to_collateral(Decimal::from_u64(10)).unwrap().try_floor_u64(), Ok(5));
    assert_eq!(rate.decimal_collateral_to_liquidity(Decimal::from_u64(5)).unwrap().try_floor_u64(), Ok(10));
}

#[test]
fn exchange_roundtrip_never_gains() {
    // 300 liquidity backs 70 collateral.
    let r = reserve(300, 0, 70);
    let rate = r.collateral_exchange_rate().unwrap();
    for x in [1u64, 2, 3, 7, 10, 99, 1000] {
        let c = rate.liquidity_to_collateral(x).unwrap();
        let back = rate.collateral_to_liquidity(c).unwrap();
        assert!(back <= x);
    }
}

#[test]
fn deposit_liquidity_then_redeem() {
    let mut r = reserve(100, 0, 50);
    assert_eq!(r.deposit_liquidity(20), Ok(10));
    assert_eq!(r.liquidity.available_amount, 120);
    assert_eq!(r.collateral.mint_total_supply, 60);
    assert_eq!(r.redeem_collateral(10), Ok(20));
    assert_eq!(r.liquidity.available_amount, 100);
    assert_eq!(r.collateral.mint_total_supply, 50);
}

#[test]
fn fees_exclusive_and_inclusive() {
    // 1% fee, no host.
    let f = fees(10_000_000_000_000_000, 0, 0);
    assert_eq!(f.calculate_borrow_fees(Decimal::from_u64(1000), FeeCalculation::Exclusive), Ok((10, 0)));
    // Inclusive: 1000 * 0.01 / 1.01 = 9.9..., rounded to 10.
    assert_eq!(f.calculate_borrow_fees(Decimal::from_u64(1000), FeeCalculation::Inclusive), Ok((10, 0)));
    // The minimum fee is one token.
    assert_eq!(f.calculate_borrow_fees(Decimal::from_u64(10), FeeCalculation::Exclusive), Ok((1, 0)));
    // No fee on a zero amount or at a zero rate.
    assert_eq!(f.calculate_borrow_fees(Decimal::zero(), FeeCalculation::Exclusive), Ok((0, 0)));
    assert_eq!(fees(0, 0, 0).calculate_borrow_fees(Decimal::from_u64(1000), FeeCalculation::Exclusive), Ok((0, 0)));
}

#[test]
fn fees_with_host_share() {
    // 1% fee, 20% of it to the host.
    let f = fees(10_000_000_000_000_000, 0, 20);
    assert_eq!(f.calculate_borrow_fees(Decimal::from_u64(1000), FeeCalculation::Exclusive), Ok((10, 2)));
    // With a host the minimum fee is two tokens and the host gets at least one.
    assert_eq!(f.calculate_borrow_fees(Decimal::from_u64(10), FeeCalculation::Exclusive), Ok((2, 1)));
}

#[test]
fn fee_taking_the_whole_amount_is_refused() {
    let f = fees(10_000_000_000_000_000, 0, 0);
    assert_eq!(f.calculate_borrow_fees(Decimal::from_u64(1), FeeCalculation::Exclusive), Err(LendingError::BorrowTooSmall));
}

#[test]
fn flash_loan_fees() {
    // 0.3% flash loan fee, 50% to the host.
    let f = fees(0, 3_000_000_000_000_000, 50);
    assert_eq!(f.calculate_flash_loan_fees(Decimal::from_u64(10_000)), Ok((30, 15)));
}

#[test]
fn fees_bounded_on_examples() {
    let f = fees(50_000_000_000_000_000, 0, 100);
    for amount in [3u64, 10, 100, 12345] {
        if let Ok((fee, host)) = f.calculate_borrow_fees(Decimal::from_u64(amount), FeeCalculation::Exclusive) {
            assert!(fee < amount);
            assert!(host <= fee);
        }
    }
}

#[test]
fn borrow_rate_segments() {
    // utilization 40% < optimal 80%: 0 + 40/80 * 4% = 2%
    let r = reserve(60, 40, 0);
    assert_eq!(r.current_borrow_rate().unwrap().to_scaled_val(), 20_000_000_000_000_000);
    // utilization 85%: 4% + (5/10) * 16% = 12%
    let r = reserve(15, 85, 0);
    assert_eq!(r.current_borrow_rate().unwrap().to_scaled_val(), 120_000_000_000_000_000);
    // utilization 95%: 20% + (5/10) * 10% = 25%
    let r = reserve(5, 95, 0);
    assert_eq!(r.current_borrow_rate().unwrap().to_scaled_val(), 250_000_000_000_000_000);
}

#[test]
fn calculate_borrow_exact_amount() {
    let mut r = reserve(1000, 0, 0);
    r.config.fees = fees(10_000_000_000_000_000, 0, 0);
    let b = r.calculate_borrow(100, Decimal::from_u64(500)).unwrap();
    assert_eq!(b.receive_amount, 100);
    assert_eq!(b.borrow_fee, 1);
    assert_eq!(b.host_fee, 0);
    assert_eq!(b.borrow_amount.try_floor_u64(), Ok(101));
    // Too large for the maximum borrow value.
    assert_eq!(r.calculate_borrow(600, Decimal::from_u64(500)).err(), Some(LendingError::BorrowTooLarge));
}

#[test]
fn calculate_borrow_everything() {
    let mut r = reserve(1000, 0, 0);
    r.config.fees = fees(10_000_000_000_000_000, 0, 0);
    // All that 500 of value buys, capped by the available 1000.
    let b = r.calculate_borrow(u64::MAX, Decimal::from_u64(500)).unwrap();
    assert_eq!(b.borrow_amount.try_floor_u64(), Ok(500));
    assert_eq!(b.borrow_fee, 5);
    assert_eq!(b.receive_amount, 495);
}

#[test]
fn calculate_repay_partial_and_full() {
    let r = reserve(0, 0, 0);
    let borrowed = Decimal::from_scaled_val(10_500_000_000_000_000_000);
    let p = r.calculate_repay(4, borrowed).unwrap();
    assert_eq!(p.repay_amount, 4);
    assert_eq!(p.settle_amount.try_floor_u64(), Ok(4));
    // More than borrowed settles the borrow, rounded up.
    let p = r.calculate_repay(20, borrowed).unwrap();
    assert_eq!(p.settle_amount, borrowed);
    assert_eq!(p.repay_amount, 11);
    let p = r.calculate_repay(u64::MAX, borrowed).unwrap();
    assert_eq!(p.settle_amount, borrowed);
    assert_eq!(p.repay_amount, 11);
}

#[test]
fn accrue_interest_compounds_over_slots() {
    let mut r = reserve(60, 40, 0);
    let before = r.liquidity.borrowed_amount_wads;
    assert_eq!(r.accrue_interest(10), Ok(()));
    assert_eq!(r.liquidity.borrowed_amount_wads, before);
    assert_eq!(r.accrue_interest(1010), Ok(()));
    assert!(before.lt(&r.liquidity.borrowed_amount_wads));
    assert!(Decimal::one().lt(&r.liquidity.cumulative_borrow_rate_wads));
    let mut r = reserve(60, 40, 0);
    assert_eq!(r.accrue_interest(9), Err(LendingError::MathOverflow));
}

#[test]
fn withdraw_platform_fees_takes_whole_tokens() {
    let mut l = liquidity(100, 0);
    l.platform_amount_wads = Decimal::from_scaled_val(2_500_000_000_000_000_000);
    assert_eq!(l.withdraw_platform_fees(), 2);
    assert_eq!(l.available_amount, 98);
    assert_eq!(l.platform_amount_wads.to_scaled_val(), Ok(500_000_000_000_000_000));
}

#[test]
fn liquidation_of_a_healthy_sized_borrow() {
    let r = reserve(0, 0, 0);
    let mut o = LendingObligation::new(InitLendingObligationParams {
        current_slot: 1,
        lending_market: key(7),
        owner: key(9),
        deposits: vec![],
        borrows: vec![],
    });
    let collateral = LendingObligationCollateral {
        deposit_reserve: key(10),
        deposited_amount: 100,
        market_value: Decimal::from_u64(100),
    };
    let liquidity = LendingObligationLiquidity {
        borrow_reserve: key(11),
        cumulative_borrow_rate_wads: Decimal::one(),
        borrowed_amount_wads: Decimal::from_u64(80),
        market_value: Decimal::from_u64(80),
    };
    o.deposits.push(collateral);
    o.borrows.push(liquidity);
    o.borrowed_value = Decimal::from_u64(80);
    // At most half the borrowed value: 40, with a 5% bonus 42 of the 100 collateral.
    let l = r.calculate_liquidation(u64::MAX, &o, &liquidity, &collateral).unwrap();
    assert_eq!(l.settle_amount.try_floor_u64(), Ok(40));
    assert_eq!(l.repay_amount, 40);
    assert_eq!(l.withdraw_amount, 42);
}

#[test]
fn reserve_pack_then_unpack() {
    let mut r = reserve(123, 45, 67);
    r.liquidity.market_price = Decimal::from_scaled_val(1_234_567_890_123_456_789);
    r.liquidity.platform_amount_wads = Decimal::from_scaled_val(42);
    r.config.fees = fees(1, 2, 3);
    let mut buf = vec![7u8; RESERVE_LEN];
    r.pack_into_slice(&mut buf);
    // The padding is left as it was.
    assert!(buf[374..].iter().all(|b| *b == 7));
    assert_eq!(buf[0], PROGRAM_VERSION);
    assert_eq!(&buf[203..211], &123u64.to_le_bytes());
    let back = Reserve::unpack_from_slice(&buf).unwrap();
    assert_eq!(back, r);
}

#[test]
fn reserve_unpack_refuses_bad_version_and_flag() {
    let r = reserve(1, 2, 3);
    let mut buf = vec![0u8; RESERVE_LEN];
    r.pack_into_slice(&mut buf);
    let mut bad = buf.clone();
    bad[0] = 2;
    assert_eq!(Reserve::unpack_from_slice(&bad), Err(LendingError::InvalidAccountData));
    let mut bad = buf.clone();
    bad[9] = 2;
    assert_eq!(Reserve::unpack_from_slice(&bad), Err(LendingError::InvalidAccountData));
}

#[test]
fn slots_elapsed_and_update() {
    let u = LastUpdate::new(5);
    assert!(u.stale);
    assert_eq!(u.slots_elapsed(8), Ok(3));
    assert_eq!(u.slots_elapsed(4), Err(LendingError::MathOverflow));
    let mut r = reserve(0, 0, 0);
    let mut c = config();
    c.loan_to_value_ratio = 75;
    r.update(c);
    assert_eq!(r.config.loan_to_value_ratio, 75);
    let _ = Rate::zero();
}

#[test]
fn borrow_rate_never_falls_and_meets_the_knees() {
    // Utilization k% for k = 0..=100 (available 100 - k, borrowed k).
    let mut last = 0u128;
    for k in 0..=100u64 {
        let rate = reserve(100 - k, k, 100).current_borrow_rate().unwrap().to_scaled_val();
        assert!(rate >= last, "rate fell at {}%", k);
        last = rate;
        let percent = 10_000_000_000_000_000u128;
        match k {
            0 => assert_eq!(rate, 0),
            80 => assert_eq!(rate, 4 * percent),
            90 => assert_eq!(rate, 20 * percent),
            100 => assert_eq!(rate, 30 * percent),
            _ => {}
        }
    }
}
