use defi_adapters::decimal::Decimal;
use defi_adapters::error::LendingError;
use defi_adapters::lending_obligation::{
    InitLendingObligationParams, LendingObligation, LendingObligationCollateral,
    LendingObligationLiquidity, MAX_OBLIGATION_RESERVES,
};
use defi_adapters::obligation_layout::OBLIGATION_LEN;
use defi_adapters::pubkey::Pubkey;
use defi_adapters::refresh::pseudo_refresh_lending_obligation;
use defi_adapters::reserve::{
    InitReserveParams, NewReserveCollateralParams, NewReserveLiquidityParams, Reserve,
    ReserveCollateral, ReserveConfig, ReserveFees, ReserveLiquidity, PROGRAM_VERSION,
};

fn key(b: u8) -> Pubkey {
    Pubkey([b; 32])
}

fn obligation() -> LendingObligation {
    LendingObligation::new(InitLendingObligationParams {
        current_slot: 3,
        lending_market: key(1),
        owner: key(2),
        deposits: vec![],
        borrows: vec![],
    })
}

fn collateral(reserve: u8, amount: u64) -> LendingObligationCollateral {
    let mut c = LendingObligationCollateral::new(key(reserve));
    c.deposited_amount = amount;
    c
}

fn borrow(reserve: u8, amount: u64) -> LendingObligationLiquidity {
    let mut l = LendingObligationLiquidity::new(key(reserve), Decimal::one());
    l.borrowed_amount_wads = Decimal::from_u64(amount);
    l
}

#[test]
fn new_obligation_is_empty_and_stale() {
    let o = obligation();
    assert_eq!(o.version, PROGRAM_VERSION);
    assert_eq!(o.last_update.slot, 3);
    assert!(o.last_update.stale);
    assert!(o.deposits.is_empty() && o.borrows.is_empty());
    assert!(o.is_initialized());
}

#[test]
fn collateral_deposit_then_withdraw_restores() {
    let start = collateral(5, 10);
    let mut c = start;
    assert_eq!(c.deposit(7), Ok(()));
    assert_eq!(c.deposited_amount, 17);
    assert_eq!(c.withdraw(7), Ok(()));
    assert_eq!(c, start);
    assert_eq!(c.withdraw(11), Err(LendingError::MathOverflow));
    let mut big = collateral(5, u64::MAX);
    assert_eq!(big.deposit(1), Err(LendingError::MathOverflow));
}

#[test]
fn liquidity_borrow_then_repay_restores() {
    let start = borrow(6, 10);
    let mut l = start;
    assert_eq!(l.borrow(Decimal::from_u64(5)), Ok(()));
    assert_eq!(l.borrowed_amount_wads.try_floor_u64(), Ok(15));
    assert_eq!(l.repay(Decimal::from_u64(5)), Ok(()));
    assert_eq!(l, start);
    assert_eq!(l.repay(Decimal::from_u64(11)), Err(LendingError::MathOverflow));
}

#[test]
fn accrue_interest_on_a_borrow() {
    let mut l = borrow(6, 100);
    // The cumulative rate grew by 10%: so does the borrow.
    let rate = Decimal::from_scaled_val(1_100_000_000_000_000_000);
    assert_eq!(l.accrue_interest(rate), Ok(()));
    assert_eq!(l.borrowed_amount_wads.try_floor_u64(), Ok(110));
    assert_eq!(l.cumulative_borrow_rate_wads, rate);
    // A lower rate is refused.
    assert_eq!(l.accrue_interest(Decimal::one()), Err(LendingError::NegativeInterestRate));
}

#[test]
fn withdraw_and_repay_remove_emptied_entries() {
    let mut o = obligation();
    o.deposits.push(collateral(5, 10));
    o.borrows.push(borrow(6, 10));
    assert_eq!(o.withdraw(4, 0), Ok(()));
    assert_eq!(o.deposits[0].deposited_amount, 6);
    assert_eq!(o.withdraw(6, 0), Ok(()));
    assert!(o.deposits.is_empty());
    assert_eq!(o.repay(Decimal::from_u64(10), 0), Ok(()));
    assert!(o.borrows.is_empty());
}

#[test]
fn obligation_values() {
    let mut o = obligation();
    o.deposited_value = Decimal::from_u64(200);
    o.borrowed_value = Decimal::from_u64(50);
    o.allowed_borrow_value = Decimal::from_u64(100);
    assert_eq!(o.loan_to_value().unwrap().to_scaled_val(), Ok(250_000_000_000_000_000));
    assert_eq!(o.remaining_borrow_value().unwrap().try_floor_u64(), Ok(50));
    // 50 borrowed needs 100 of the 200 deposited.
    assert_eq!(o.max_withdraw_value().unwrap().try_floor_u64(), Ok(100));
    let l = borrow(6, 80);
    let mut l = l;
    l.market_value = Decimal::from_u64(50);
    // Half of the 50 borrowed value, over a 50 market value: half the borrow.
    assert_eq!(o.max_liquidation_amount(&l).unwrap().try_floor_u64(), Ok(40));
}

#[test]
fn find_and_add_entries() {
    let mut o = obligation();
    assert_eq!(o.find_collateral_in_deposits(key(5)).err(), Some(LendingError::ObligationDepositsEmpty));
    assert_eq!(o.find_liquidity_in_borrows(key(6)).err(), Some(LendingError::ObligationBorrowsEmpty));
    {
        let c = o.find_or_add_collateral_to_deposits(key(5)).unwrap();
        c.deposited_amount = 9;
    }
    assert_eq!(o.deposits.len(), 1);
    assert_eq!(o.find_collateral_in_deposits(key(5)).unwrap().1, 0);
    assert_eq!(o.find_collateral_in_deposits(key(4)).err(), Some(LendingError::InvalidObligationCollateral));
    {
        let l = o.find_or_add_liquidity_to_borrows(key(6), Decimal::one()).unwrap();
        l.borrowed_amount_wads = Decimal::from_u64(3);
    }
    assert_eq!(o.find_liquidity_in_borrows(key(6)).unwrap().1, 0);
    assert_eq!(o.find_liquidity_in_borrows(key(4)).err(), Some(LendingError::InvalidObligationLiquidity));
    {
        let (l, i) = o.find_liquidity_in_borrows_mut(key(6)).unwrap();
        assert_eq!(i, 0);
        l.borrowed_amount_wads = Decimal::from_u64(4);
    }
    assert_eq!(o.borrows[0].borrowed_amount_wads.try_floor_u64(), Ok(4));
}

#[test]
fn reserve_limit_is_enforced() {
    let mut o = obligation();
    for i in 0..MAX_OBLIGATION_RESERVES {
        o.deposits.push(collateral(100 + i as u8, 1));
    }
    assert_eq!(o.find_or_add_collateral_to_deposits(key(1)).err(), Some(LendingError::ObligationReserveLimit));
    assert_eq!(o.find_or_add_liquidity_to_borrows(key(1), Decimal::one()).err(), Some(LendingError::ObligationReserveLimit));
}

#[test]
fn obligation_pack_then_unpack() {
    let mut o = obligation();
    o.deposits.push(collateral(5, 10));
    o.borrows.push(borrow(6, 20));
    o.borrows.push(borrow(7, 30));
    o.deposited_value = Decimal::from_u64(1);
    o.borrowed_value = Decimal::from_u64(2);
    let mut buf = vec![9u8; OBLIGATION_LEN];
    o.pack_into_slice(&mut buf);
    assert_eq!(buf[202], 1);
    assert_eq!(buf[203], 2);
    // Padding of the head and of the deposit slot is left as it was.
    assert!(buf[138..202].iter().all(|b| *b == 9));
    assert!(buf[204 + 56..204 + 88].iter().all(|b| *b == 9));
    let back = LendingObligation::unpack_from_slice(&buf).unwrap();
    assert_eq!(back, o);
}

#[test]
fn obligation_unpack_refuses_bad_version_and_flag() {
    let o = obligation();
    let mut buf = vec![0u8; OBLIGATION_LEN];
    o.pack_into_slice(&mut buf);
    let mut bad = buf.clone();
    bad[0] = 3;
    assert_eq!(LendingObligation::unpack_from_slice(&bad).err(), Some(LendingError::InvalidAccountData));
    let mut bad = buf.clone();
    bad[9] = 7;
    assert_eq!(LendingObligation::unpack_from_slice(&bad).err(), Some(LendingError::InvalidAccountData));
}

fn priced_reserve(price: u64, available: u64, borrowed: u64, collateral_supply: u64) -> Reserve {
    let mut liquidity = ReserveLiquidity::new(NewReserveLiquidityParams {
        mint_pubkey: key(20),
        mint_decimals: 0,
        supply_pubkey: key(21),
        fee_receiver: key(22),
        oracle_pubkey: key(23),
        market_price: Decimal::from_u64(price),
        platform_fees: 0,
    });
    liquidity.available_amount = available;
    liquidity.borrowed_amount_wads = Decimal::from_u64(borrowed);
    let mut collateral = ReserveCollateral::new(NewReserveCollateralParams { mint_pubkey: key(24), supply_pubkey: key(25) });
    collateral.mint_total_supply = collateral_supply;
    Reserve::new(InitReserveParams {
        current_slot: 0,
        lending_market: key(1),
        borrow_authorizer: key(2),
        liquidity,
        collateral,
        config: ReserveConfig {
            optimal_utilization_rate: 80,
            degen_utilization_rate: 90,
            loan_to_value_ratio: 50,
            liquidation_bonus: 5,
            liquidation_threshold: 60,
            min_borrow_rate: 0,
            optimal_borrow_rate: 4,
            degen_borrow_rate: 20,
            max_borrow_rate: 30,
            fees: ReserveFees { borrow_fee_wad: 0, flash_loan_fee_wad: 0, host_fee_percentage: 0 },
        },
    })
}

#[test]
fn refresh_prices_deposits_and_borrows() {
    let mut o = obligation();
    o.deposits.push(collateral(5, 10));
    o.borrows.push(borrow(6, 4));
    // Deposit reserve: price 2, one collateral token per liquidity token.
    // Borrow reserve: price 3.
    let reserves = vec![(key(5), priced_reserve(2, 100, 0, 100)), (key(6), priced_reserve(3, 100, 0, 0))];
    assert_eq!(pseudo_refresh_lending_obligation(&mut o, &reserves), Ok(()));
    assert_eq!(o.deposits[0].market_value.try_floor_u64(), Ok(20));
    assert_eq!(o.borrows[0].market_value.try_floor_u64(), Ok(12));
    assert_eq!(o.deposited_value.try_floor_u64(), Ok(20));
    assert_eq!(o.allowed_borrow_value.try_floor_u64(), Ok(10));
    assert_eq!(o.unhealthy_borrow_value.try_floor_u64(), Ok(12));
    assert_eq!(o.borrowed_value.try_floor_u64(), Ok(12));
}

#[test]
fn refreshing_twice_changes_nothing_the_second_time() {
    let mut o = obligation();
    o.deposits.push(collateral(5, 10));
    o.borrows.push(borrow(6, 4));
    let mut borrow_reserve = priced_reserve(3, 100, 0, 0);
    // The borrow reserve's cumulative rate is 1.5, so the first refresh accrues interest.
    borrow_reserve.liquidity.cumulative_borrow_rate_wads = Decimal::from_scaled_val(1_500_000_000_000_000_000);
    let reserves = vec![(key(5), priced_reserve(2, 100, 0, 100)), (key(6), borrow_reserve)];
    assert_eq!(pseudo_refresh_lending_obligation(&mut o, &reserves), Ok(()));
    assert_eq!(o.borrows[0].borrowed_amount_wads.try_floor_u64(), Ok(6));
    assert_eq!(o.borrowed_value.try_floor_u64(), Ok(18));
    let once = o.clone();
    assert_eq!(pseudo_refresh_lending_obligation(&mut o, &reserves), Ok(()));
    assert_eq!(o, once);
}

#[test]
fn refresh_with_a_missing_reserve_fails_and_keeps_values() {
    let mut o = obligation();
    o.deposits.push(collateral(5, 10));
    o.borrows.push(borrow(6, 4));
    o.deposited_value = Decimal::from_u64(77);
    let reserves = vec![(key(5), priced_reserve(2, 100, 0, 100))];
    assert_eq!(pseudo_refresh_lending_obligation(&mut o, &reserves), Err(LendingError::InvalidAccountData));
    // The deposit was re-priced before the borrow's reserve was found missing.
    assert_eq!(o.deposits[0].market_value.try_floor_u64(), Ok(20));
    assert_eq!(o.deposited_value.try_floor_u64(), Ok(77));
}
