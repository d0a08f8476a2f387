//! Lending reserve state and its rules: liquidity, collateral, exchange rate,
//! fees, interest and borrow/repay/liquidation amounts.
use vstd::prelude::*;
use crate::decimal::{Decimal, dec_out};
use crate::error::LendingError;
use crate::math::{
    WAD, bind, floor_to_u64, half_wad, lift, percent_scaler, plain_mul, round_to_u64, scaled_div, scaled_mul,
    u64_out, view_res, wad,
};
use crate::rate::{Rate, overflow_only, rate_out};
use crate::uint::{limb2, u192_bound};
use crate::pubkey::Pubkey;
use crate::last_update::LastUpdate;
use crate::lending_obligation::{
    LendingObligation, LendingObligationCollateral, LendingObligationLiquidity,
    max_liquidation_model,
};

verus! {

/// Exchange rate from reserve liquidity to collateral tokens: collateral per
/// unit of liquidity.
#[derive(Clone, Copy, Debug)]
pub struct CollateralExchangeRate(Rate);

impl View for CollateralExchangeRate {
    type V = nat;

    closed spec fn view(&self) -> nat {
        self.0@
    }
}

impl CollateralExchangeRate {
    /// Convert reserve collateral to liquidity, rounded down.
    pub fn collateral_to_liquidity(&self, collateral_amount: u64) -> (r: Result<u64, LendingError>)
        ensures
            r == collateral_to_liquidity_model(self@, collateral_amount),
    {
        Decimal::from_u64(collateral_amount).try_div_rate(self.0)?.try_floor_u64()
    }

    /// Convert a decimal amount of reserve collateral to liquidity.
    pub fn decimal_collateral_to_liquidity(&self, collateral_amount: Decimal) -> (r: Result<
        Decimal,
        LendingError,
    >)
        ensures
            view_res(r) == lift(scaled_div(collateral_amount@, self@, u192_bound())),
    {
        collateral_amount.try_div_rate(self.0)
    }

    /// Convert reserve liquidity to collateral, rounded down.
    pub fn liquidity_to_collateral(&self, liquidity_amount: u64) -> (r: Result<u64, LendingError>)
        ensures
            r == liquidity_to_collateral_model(self@, liquidity_amount),
    {
        self.0.try_mul_u64(liquidity_amount)?.try_floor_u64()
    }

    /// Convert a decimal amount of reserve liquidity to collateral.
    pub fn decimal_liquidity_to_collateral(&self, liquidity_amount: Decimal) -> (r: Result<
        Decimal,
        LendingError,
    >)
        ensures
            view_res(r) == lift(scaled_mul(liquidity_amount@, self@, u192_bound())),
    {
        liquidity_amount.try_mul_rate(self.0)
    }

    /// The rate itself.
    pub fn into_rate(self) -> (r: Rate)
        ensures
            r@ == self@,
    {
        self.0
    }
}

/// Calculate fees exclusive or inclusive of an amount.
#[derive(Clone, Copy, Debug, PartialEq, Eq, Structural)]
pub enum FeeCalculation {
    /// Fee added to amount: fee = rate * amount
    Exclusive,
    /// Fee included in amount: fee = (rate / (1 + rate)) * amount
    Inclusive,
}

/// Additional fee information on a reserve: fees for the program owner and the
/// front-end host, paid as a share of liquidity token amounts.
#[derive(Clone, Copy, Debug, PartialEq, Eq, Structural)]
pub struct ReserveFees {
    /// Fee assessed on a borrow, expressed as a wad (10^18 is 100%).
    pub borrow_fee_wad: u64,
    /// Fee for a flash loan, expressed as a wad.
    pub flash_loan_fee_wad: u64,
    /// Share of the fee going to the host account, as a percentage.
    pub host_fee_percentage: u8,
}

/// The larger of two `u64`.
pub open spec fn max_u64(a: u64, b: u64) -> u64 {
    if a >= b {
        a
    } else {
        b
    }
}

/// The fee amount, as a decimal, before rounding: `amount * rate` when the fee
/// is added to the amount, `amount * rate / (rate + 1)` when it is included.
pub open spec fn fee_amount_model(amount: nat, fee_wad: nat, inclusive: bool) -> Result<
    nat,
    LendingError,
> {
    if inclusive {
        bind(
            lift(scaled_div(fee_wad, fee_wad + wad() as nat, limb2())),
            |r: nat| lift(scaled_mul(amount, r, u192_bound())),
        )
    } else {
        lift(scaled_mul(amount, fee_wad, u192_bound()))
    }
}

/// The host's part of a fee, at least one token.
pub open spec fn host_fee_model(host_rate: nat, fee: u64) -> Result<u64, LendingError> {
    bind(
        lift(plain_mul(host_rate, fee as nat, limb2())),
        |h: nat| bind(lift(round_to_u64(h, limb2())), |hr: u64| Ok(max_u64(hr, 1))),
    )
}

/// Owner fee and host fee on `amount` (scaled by 10^18) at fee rate `fee_wad`:
/// nothing when either is zero; otherwise the fee rounded to nearest, at least
/// one token per party paid, and the borrow refused when the fee would take
/// the whole amount.
pub open spec fn fees_model(amount: nat, fee_wad: u64, host_percentage: u8, inclusive: bool) -> Result<
    (u64, u64),
    LendingError,
> {
    let host_rate = (host_percentage * percent_scaler()) as nat;
    if fee_wad > 0 && amount > 0 {
        let minimum_fee: u64 = if host_rate > 0 {
            2
        } else {
            1
        };
        bind(
            fee_amount_model(amount, fee_wad as nat, inclusive),
            |fa: nat|
                bind(
                    lift(round_to_u64(fa, u192_bound())),
                    |rounded: u64|
                        {
                            let fee = max_u64(rounded, minimum_fee);
                            if fee * wad() >= amount {
                                Err(LendingError::BorrowTooSmall)
                            } else if host_rate > 0 {
                                bind(host_fee_model(host_rate, fee), |h: u64| Ok((fee, h)))
                            } else {
                                Ok((fee, 0u64))
                            }
                        },
                ),
        )
    } else {
        Ok((0u64, 0u64))
    }
}

/// The fees never take the whole amount: a fee that is charged is worth less
/// than the amount it is charged on. When the host's percentage is at most
/// 100, the host's share is never more than the fee.
pub proof fn lemma_fees_bounded(amount: nat, fee_wad: u64, host_percentage: u8, inclusive: bool)
    requires
        fees_model(amount, fee_wad, host_percentage, inclusive) is Ok,
    ensures
        ({
            let (fee, host) = fees_model(amount, fee_wad, host_percentage, inclusive)->Ok_0;
            &&& fee == 0 || fee * wad() < amount
            &&& host_percentage <= 100 ==> host <= fee
        }),
{
    let host_rate = (host_percentage * percent_scaler()) as nat;
    if fee_wad > 0 && amount > 0 {
        let fa = fee_amount_model(amount, fee_wad as nat, inclusive)->Ok_0;
        let rounded = round_to_u64(fa, u192_bound())->Some_0;
        let fee = max_u64(rounded, if host_rate > 0 { 2 } else { 1 });
        if host_rate > 0 && host_percentage <= 100 {
            let x = host_rate * fee;
            assert(x <= wad() * fee) by (nonlinear_arith)
                requires
                    host_rate <= wad(),
                    x == host_rate * fee,
                    fee >= 0,
            ;
            assert((x + half_wad()) / wad() <= fee) by (nonlinear_arith)
                requires
                    x <= wad() * fee,
                    0 <= x,
                    wad() == 1_000_000_000_000_000_000,
                    half_wad() == 500_000_000_000_000_000,
            ;
        }
    }
}

impl ReserveFees {
    /// Calculate the owner and host fees on borrow.
    pub fn calculate_borrow_fees(&self, borrow_amount: Decimal, fee_calculation: FeeCalculation) -> (r:
        Result<(u64, u64), LendingError>)
        ensures
            r == fees_model(
                borrow_amount@,
                self.borrow_fee_wad,
                self.host_fee_percentage,
                fee_calculation == FeeCalculation::Inclusive,
            ),
    {
        self.calculate_fees(borrow_amount, self.borrow_fee_wad, fee_calculation)
    }

    /// Calculate the owner and host fees on flash loan.
    pub fn calculate_flash_loan_fees(&self, flash_loan_amount: Decimal) -> (r: Result<
        (u64, u64),
        LendingError,
    >)
        ensures
            r == fees_model(
                flash_loan_amount@,
                self.flash_loan_fee_wad,
                self.host_fee_percentage,
                false,
            ),
    {
        self.calculate_fees(flash_loan_amount, self.flash_loan_fee_wad, FeeCalculation::Exclusive)
    }

    fn calculate_fees(&self, amount: Decimal, fee_wad: u64, fee_calculation: FeeCalculation) -> (r:
        Result<(u64, u64), LendingError>)
        ensures
            r == fees_model(
                amount@,
                fee_wad,
                self.host_fee_percentage,
                fee_calculation == FeeCalculation::Inclusive,
            ),
    {
        let borrow_fee_rate = Rate::from_scaled_val(fee_wad);
        let host_fee_rate = Rate::from_percent(self.host_fee_percentage);
        if borrow_fee_rate.0 > 0 && !amount.is_zero() {
            let need_to_assess_host_fee = host_fee_rate.0 > 0;
            let minimum_fee: u64 = if need_to_assess_host_fee {
                2  // 1 token to owner, 1 to host

            } else {
                1  // 1 token to owner, nothing else

            };
            let borrow_fee_amount = match fee_calculation {
                FeeCalculation::Exclusive => amount.try_mul_rate(borrow_fee_rate)?,
                FeeCalculation::Inclusive => {
                    let borrow_fee_rate = borrow_fee_rate.try_div(
                        borrow_fee_rate.try_add(Rate::one())?,
                    )?;
                    amount.try_mul_rate(borrow_fee_rate)?
                },
            };
            let rounded = borrow_fee_amount.try_round_u64()?;
            let borrow_fee = if rounded >= minimum_fee {
                rounded
            } else {
                minimum_fee
            };
            if !Decimal::from_u64(borrow_fee).lt(&amount) {
                return Err(LendingError::BorrowTooSmall);
            }
            let host_fee = if need_to_assess_host_fee {
                let h = host_fee_rate.try_mul_u64(borrow_fee)?.try_round_u64()?;
                if h >= 1 {
                    h
                } else {
                    1
                }
            } else {
                0
            };
            Ok((borrow_fee, host_fee))
        } else {
            Ok((0, 0))
        }
    }
}


/// Percentage of an obligation that can be repaid during each liquidation call.
pub const LIQUIDATION_CLOSE_FACTOR: u8 = 50;

/// Obligation borrow amount that is small enough to close out.
pub const LIQUIDATION_CLOSE_AMOUNT: u64 = 2;

/// Version of the stored state this program writes.
pub const PROGRAM_VERSION: u8 = 1;

/// Version of state that was never initialized.
pub const UNINITIALIZED_VERSION: u8 = 0;

/// Collateral minted per unit of liquidity before any deposit, scaled by 10^18.
pub const INITIAL_COLLATERAL_RATE: u64 = 1_000_000_000_000_000_000;

/// Slots per year: 160 ticks per second over 64 ticks per slot (2, in integer
/// division), times the seconds of 365 days.
pub const SLOTS_PER_YEAR: u64 = 63_072_000;

/// Reserve liquidity.
#[derive(Clone, Copy, Debug, PartialEq, Eq)]
pub struct ReserveLiquidity {
    /// Reserve liquidity mint address
    pub mint_pubkey: Pubkey,
    /// Reserve liquidity mint decimals
    pub mint_decimals: u8,
    /// Reserve liquidity supply address
    pub supply_pubkey: Pubkey,
    /// Reserve liquidity fee receiver address
    pub fee_receiver: Pubkey,
    /// Reserve liquidity oracle account
    pub oracle_pubkey: Pubkey,
    /// Reserve liquidity available
    pub available_amount: u64,
    /// Reserve liquidity borrowed
    pub borrowed_amount_wads: Decimal,
    /// Reserve liquidity cumulative borrow rate
    pub cumulative_borrow_rate_wads: Decimal,
    /// Reserve liquidity market price in quote currency
    pub market_price: Decimal,
    /// platform fees generated
    pub platform_amount_wads: Decimal,
    /// platform fee percentage
    pub platform_fees: u8,
}

/// Parameters of a new reserve liquidity.
#[derive(Clone, Copy, Debug)]
pub struct NewReserveLiquidityParams {
    pub mint_pubkey: Pubkey,
    pub mint_decimals: u8,
    pub supply_pubkey: Pubkey,
    pub fee_receiver: Pubkey,
    pub oracle_pubkey: Pubkey,
    pub market_price: Decimal,
    pub platform_fees: u8,
}

/// The liquidity after adding `amount` to the available amount, which must
/// stay within a `u64`.
pub open spec fn liquidity_deposit_model(l: ReserveLiquidity, amount: u64) -> Result<
    ReserveLiquidity,
    LendingError,
> {
    if l.available_amount + amount <= u64::MAX {
        Ok(ReserveLiquidity { available_amount: (l.available_amount + amount) as u64, ..l })
    } else {
        Err(LendingError::MathOverflow)
    }
}

/// The liquidity after taking `amount` from the available amount, which must
/// hold it.
pub open spec fn liquidity_withdraw_model(l: ReserveLiquidity, amount: u64) -> Result<
    ReserveLiquidity,
    LendingError,
> {
    if amount <= l.available_amount {
        Ok(ReserveLiquidity { available_amount: (l.available_amount - amount) as u64, ..l })
    } else {
        Err(LendingError::InsufficientLiquidity)
    }
}

/// Withdrawing what was just deposited gives the liquidity back.
pub proof fn lemma_liquidity_deposit_withdraw(l: ReserveLiquidity, amount: u64)
    requires
        liquidity_deposit_model(l, amount) is Ok,
    ensures
        liquidity_withdraw_model(liquidity_deposit_model(l, amount)->Ok_0, amount) == Ok::<
            ReserveLiquidity,
            LendingError,
        >(l),
{
}

/// Depositing what was just withdrawn gives the liquidity back.
pub proof fn lemma_liquidity_withdraw_deposit(l: ReserveLiquidity, amount: u64)
    requires
        liquidity_withdraw_model(l, amount) is Ok,
    ensures
        liquidity_deposit_model(liquidity_withdraw_model(l, amount)->Ok_0, amount) == Ok::<
            ReserveLiquidity,
            LendingError,
        >(l),
{
}

/// The addresses, price and fee settings of two liquidity states agree.
pub open spec fn same_liquidity_setup(a: ReserveLiquidity, b: ReserveLiquidity) -> bool {
    &&& a.mint_pubkey == b.mint_pubkey
    &&& a.mint_decimals == b.mint_decimals
    &&& a.supply_pubkey == b.supply_pubkey
    &&& a.fee_receiver == b.fee_receiver
    &&& a.oracle_pubkey == b.oracle_pubkey
    &&& a.market_price == b.market_price
    &&& a.platform_fees == b.platform_fees
}

/// Total liquidity the collateral holders have a right to, scaled by 10^18:
/// available plus borrowed, less the platform's part.
pub open spec fn total_supply_model(l: ReserveLiquidity) -> Result<nat, LendingError> {
    let sum = l.available_amount * wad() + l.borrowed_amount_wads@;
    if sum >= u192_bound() || sum < l.platform_amount_wads@ {
        Err(LendingError::MathOverflow)
    } else {
        Ok((sum - l.platform_amount_wads@) as nat)
    }
}

/// Borrowed over total supply, as a rate; zero for an empty reserve.
pub open spec fn utilization_model(l: ReserveLiquidity) -> Result<nat, LendingError> {
    bind(
        total_supply_model(l),
        |t: nat|
            if t == 0 {
                Ok(0nat)
            } else {
                bind(
                    lift(scaled_div(l.borrowed_amount_wads@, t, u192_bound())),
                    |u: nat|
                        if u < limb2() {
                            Ok(u)
                        } else {
                            Err(LendingError::MathOverflow)
                        },
                )
            },
    )
}

/// Interest factor over `slots` slots at yearly rate `rate`: the per-slot
/// rate added to one, raised to the number of slots.
pub open spec fn compounded_rate_model(rate: nat, slots: nat) -> Result<nat, LendingError> {
    let slot_rate = rate / (SLOTS_PER_YEAR as nat);
    if slot_rate + wad() >= limb2() {
        Err(LendingError::MathOverflow)
    } else {
        lift(crate::rate::rate_pow((slot_rate + wad()) as nat, slots))
    }
}

/// How compounding interest over `slots` slots at yearly rate `rate` takes
/// liquidity state `o` to `f` with outcome `r`: the cumulative rate and the
/// borrows grow by the compounded factor and the platform takes its share of
/// the growth; a failed step leaves the later fields as they were.
pub open spec fn compound_outcome(o: ReserveLiquidity, f: ReserveLiquidity, rate: nat, slots: nat, r: Result<(), LendingError>) -> bool {
    &&& same_liquidity_setup(f, o)
    &&& f.available_amount == o.available_amount
    &&& match compounded_rate_model(rate, slots) {
                Err(e) => r == Err::<(), LendingError>(e) && f == o,
                Ok(c) => match scaled_mul(o.cumulative_borrow_rate_wads@, c, u192_bound()) {
                    None => r == Err::<(), LendingError>(LendingError::MathOverflow) && f
                        == o,
                    Some(cum) => f.cumulative_borrow_rate_wads@ == cum && match scaled_mul(
                        o.borrowed_amount_wads@,
                        c,
                        u192_bound(),
                    ) {
                        None => r == Err::<(), LendingError>(LendingError::MathOverflow) && f.borrowed_amount_wads == o.borrowed_amount_wads && f.platform_amount_wads == o.platform_amount_wads,
                        Some(b) => f.borrowed_amount_wads@ == b && match bind(
                            lift(
                                if b >= o.borrowed_amount_wads@ {
                                    Some((b - o.borrowed_amount_wads@) as nat)
                                } else {
                                    None::<nat>
                                },
                            ),
                            |d: nat|
                                lift(
                                    scaled_mul(
                                        d,
                                        (o.platform_fees * percent_scaler()) as nat,
                                        u192_bound(),
                                    ),
                                ),
                        ) {
                            Err(e) => r == Err::<(), LendingError>(e) && f.platform_amount_wads == o.platform_amount_wads,
                            Ok(fee) => if o.platform_amount_wads@ + fee < u192_bound() {
                                r is Ok && f.platform_amount_wads@ == o.platform_amount_wads@ + fee
                            } else {
                                r == Err::<(), LendingError>(LendingError::MathOverflow) && f.platform_amount_wads == o.platform_amount_wads
                            },
                        },
                    },
                },
            }
}

/// Accruing interest gives the platform its percentage of the interest and
/// of nothing else: its amount grows by `platform_fees` percent of what the
/// borrows grew by, rounded down. With a percentage of at most 100 the
/// platform never gains more than the interest, and it gains nothing when no
/// interest accrued.
pub proof fn lemma_platform_takes_its_share_of_interest(
    o: ReserveLiquidity,
    f: ReserveLiquidity,
    rate: nat,
    slots: nat,
)
    requires
        compound_outcome(o, f, rate, slots, Ok(())),
    ensures
        f.borrowed_amount_wads@ >= o.borrowed_amount_wads@,
        f.platform_amount_wads@ >= o.platform_amount_wads@,
        f.platform_amount_wads@ - o.platform_amount_wads@ == ((f.borrowed_amount_wads@
            - o.borrowed_amount_wads@) * (o.platform_fees * percent_scaler())) / wad(),
        o.platform_fees <= 100 ==> f.platform_amount_wads@ - o.platform_amount_wads@
            <= f.borrowed_amount_wads@ - o.borrowed_amount_wads@,
        f.borrowed_amount_wads@ == o.borrowed_amount_wads@ ==> f.platform_amount_wads@
            == o.platform_amount_wads@,
{
    let d = f.borrowed_amount_wads@ - o.borrowed_amount_wads@;
    let fp = o.platform_fees * percent_scaler();
    let w = wad();
    assert(d >= 0);
    assert(d * fp >= 0) by (nonlinear_arith)
        requires
            d >= 0,
            fp >= 0,
    ;
    vstd::arithmetic::div_mod::lemma_div_pos_is_pos(d * fp, w);
    if d == 0 {
        assert(d * fp == 0) by (nonlinear_arith)
            requires
                d == 0,
        ;
    }
    if o.platform_fees <= 100 {
        assert(d * fp <= d * w) by (nonlinear_arith)
            requires
                d >= 0,
                0 <= fp <= w,
        ;
        vstd::arithmetic::div_mod::lemma_div_is_ordered(d * fp, d * w, w);
        vstd::arithmetic::div_mod::lemma_div_by_multiple(d, w);
    }
}

impl ReserveLiquidity {
    /// Create a new reserve liquidity.
    pub fn new(params: NewReserveLiquidityParams) -> (r: Self)
        ensures
            r.mint_pubkey == params.mint_pubkey,
            r.mint_decimals == params.mint_decimals,
            r.supply_pubkey == params.supply_pubkey,
            r.fee_receiver == params.fee_receiver,
            r.oracle_pubkey == params.oracle_pubkey,
            r.available_amount == 0,
            r.borrowed_amount_wads@ == 0,
            r.cumulative_borrow_rate_wads@ == wad(),
            r.market_price == params.market_price,
            r.platform_amount_wads@ == 0,
            r.platform_fees == params.platform_fees,
    {
        Self {
            mint_pubkey: params.mint_pubkey,
            mint_decimals: params.mint_decimals,
            supply_pubkey: params.supply_pubkey,
            fee_receiver: params.fee_receiver,
            oracle_pubkey: params.oracle_pubkey,
            available_amount: 0,
            borrowed_amount_wads: Decimal::zero(),
            cumulative_borrow_rate_wads: Decimal::one(),
            market_price: params.market_price,
            platform_amount_wads: Decimal::zero(),
            platform_fees: params.platform_fees,
        }
    }

    /// Total reserve supply including active loans, less the platform amount,
    /// which the collateral tokens have no right over.
    pub fn total_supply(&self) -> (r: Result<Decimal, LendingError>)
        ensures
            view_res(r) == total_supply_model(*self),
    {
        Decimal::from_u64(self.available_amount).try_add(self.borrowed_amount_wads)?.try_sub(
            self.platform_amount_wads,
        )
    }

    /// Add liquidity to the available amount.
    pub fn deposit(&mut self, liquidity_amount: u64) -> (r: Result<(), LendingError>)
        ensures
            match liquidity_deposit_model(*old(self), liquidity_amount) {
                Ok(n) => r is Ok && *final(self) == n,
                Err(e) => r == Err::<(), LendingError>(e) && *final(self) == *old(self),
            },
    {
        match self.available_amount.checked_add(liquidity_amount) {
            Some(v) => {
                self.available_amount = v;
                Ok(())
            },
            None => Err(LendingError::MathOverflow),
        }
    }

    /// Remove liquidity from the available amount.
    pub fn withdraw(&mut self, liquidity_amount: u64) -> (r: Result<(), LendingError>)
        ensures
            match liquidity_withdraw_model(*old(self), liquidity_amount) {
                Ok(n) => r is Ok && *final(self) == n,
                Err(e) => r == Err::<(), LendingError>(e) && *final(self) == *old(self),
            },
    {
        if liquidity_amount > self.available_amount {
            return Err(LendingError::InsufficientLiquidity);
        }
        self.available_amount = self.available_amount - liquidity_amount;
        Ok(())
    }

    /// Withdraw the platform fees that the available liquidity can pay: all
    /// of it when it equals the platform amount, the whole tokens of the
    /// platform amount when it exceeds it, nothing when it falls short.
    pub fn withdraw_platform_fees(&mut self) -> (r: u64)
        ensures
            same_liquidity_setup(*final(self), *old(self)),
            final(self).borrowed_amount_wads == old(self).borrowed_amount_wads,
            final(self).cumulative_borrow_rate_wads == old(self).cumulative_borrow_rate_wads,
            old(self).available_amount * wad() < old(self).platform_amount_wads@ ==> r == 0
                && *final(self) == *old(self),
            old(self).available_amount * wad() == old(self).platform_amount_wads@ ==> r == old(self).available_amount && final(self).available_amount == 0
                && final(self).platform_amount_wads@ == 0,
            old(self).available_amount * wad() > old(self).platform_amount_wads@ ==> r == old(self).platform_amount_wads@ as int / wad() && final(self).available_amount == old(self).available_amount - r && final(self).platform_amount_wads@ == old(self).platform_amount_wads@ - r * wad(),
    {
        let available = Decimal::from_u64(self.available_amount);
        if available.lt(&self.platform_amount_wads) {
            0
        } else if available.eq(&self.platform_amount_wads) {
            let platform_fees = self.available_amount;
            self.platform_amount_wads = self.platform_amount_wads.try_sub(
                Decimal::from_u64(platform_fees),
            ).unwrap();
            self.available_amount = 0;
            platform_fees
        } else {
            let platform_fees = self.platform_amount_wads.try_floor_u64().unwrap();
            proof {
                assert(platform_fees * wad() <= self.platform_amount_wads@) by {
                    vstd::arithmetic::div_mod::lemma_fundamental_div_mod(
                        self.platform_amount_wads@ as int,
                        wad(),
                    );
                }
            }
            self.platform_amount_wads = self.platform_amount_wads.try_sub(
                Decimal::from_u64(platform_fees),
            ).unwrap();
            self.available_amount = self.available_amount.checked_sub(platform_fees).unwrap();
            platform_fees
        }
    }

    /// Subtract a borrow from the available liquidity and add it to the borrows.
    pub fn borrow(&mut self, borrow_decimal: Decimal) -> (r: Result<(), LendingError>)
        ensures
            match floor_to_u64(borrow_decimal@) {
                None => r == Err::<(), LendingError>(LendingError::MathOverflow) && *final(self)
                    == *old(self),
                Some(amount) => if amount > old(self).available_amount {
                    r == Err::<(), LendingError>(LendingError::InsufficientLiquidity) && *final(self) == *old(self)
                } else {
                    &&& same_liquidity_setup(*final(self), *old(self))
                    &&& final(self).available_amount == old(self).available_amount - amount
                    &&& final(self).cumulative_borrow_rate_wads == old(self).cumulative_borrow_rate_wads
                    &&& final(self).platform_amount_wads == old(self).platform_amount_wads
                    &&& if old(self).borrowed_amount_wads@ + borrow_decimal@ < u192_bound() {
                        r is Ok && final(self).borrowed_amount_wads@ == old(self).borrowed_amount_wads@ + borrow_decimal@
                    } else {
                        r == Err::<(), LendingError>(LendingError::MathOverflow) && final(self).borrowed_amount_wads == old(self).borrowed_amount_wads
                    }
                },
            },
    {
        let borrow_amount = borrow_decimal.try_floor_u64()?;
        if borrow_amount > self.available_amount {
            return Err(LendingError::InsufficientLiquidity);
        }
        self.available_amount = self.available_amount - borrow_amount;
        self.borrowed_amount_wads = self.borrowed_amount_wads.try_add(borrow_decimal)?;
        Ok(())
    }

    /// Add a repayment to the available liquidity and take the settled amount
    /// off the borrows, down to zero.
    pub fn repay(&mut self, repay_amount: u64, settle_amount: Decimal) -> (r: Result<
        (),
        LendingError,
    >)
        ensures
            old(self).available_amount + repay_amount > u64::MAX ==> r == Err::<(), LendingError>(
                LendingError::MathOverflow,
            ) && *final(self) == *old(self),
            old(self).available_amount + repay_amount <= u64::MAX ==> {
                &&& r is Ok
                &&& same_liquidity_setup(*final(self), *old(self))
                &&& final(self).available_amount == old(self).available_amount + repay_amount
                &&& final(self).cumulative_borrow_rate_wads == old(self).cumulative_borrow_rate_wads
                &&& final(self).platform_amount_wads == old(self).platform_amount_wads
                &&& final(self).borrowed_amount_wads@ == if settle_amount@ >= old(self).borrowed_amount_wads@ {
                    0
                } else {
                    old(self).borrowed_amount_wads@ - settle_amount@
                }
            },
    {
        self.available_amount = match self.available_amount.checked_add(repay_amount) {
            Some(v) => v,
            None => {
                return Err(LendingError::MathOverflow);
            },
        };
        if self.borrowed_amount_wads.le(&settle_amount) {
            self.borrowed_amount_wads = Decimal::zero();
        } else {
            self.borrowed_amount_wads = self.borrowed_amount_wads.try_sub(settle_amount).unwrap();
        }
        Ok(())
    }

    /// Liquidity utilization rate of the reserve.
    pub fn utilization_rate(&self) -> (r: Result<Rate, LendingError>)
        ensures
            view_res(r) == utilization_model(*self),
    {
        let total_supply = self.total_supply()?;
        if total_supply.is_zero() {
            return Ok(Rate::zero());
        }
        Rate::try_from_decimal(self.borrowed_amount_wads.try_div(total_supply)?)
    }

    /// Compound the borrow rate over elapsed slots into the cumulative rate,
    /// the borrows and the platform's share of the interest.
    fn compound_interest(&mut self, current_borrow_rate: Rate, slots_elapsed: u64) -> (r: Result<
        (),
        LendingError,
    >)
        ensures
            compound_outcome(*old(self), *final(self), current_borrow_rate@, slots_elapsed as nat, r),
    {
        let slot_interest_rate = current_borrow_rate.try_div_u64(SLOTS_PER_YEAR)?;
        let compounded_interest_rate = Rate::one().try_add(slot_interest_rate)?.try_pow(
            slots_elapsed,
        )?;
        self.cumulative_borrow_rate_wads = self.cumulative_borrow_rate_wads.try_mul_rate(
            compounded_interest_rate,
        )?;
        let before = self.borrowed_amount_wads;
        self.borrowed_amount_wads = self.borrowed_amount_wads.try_mul_rate(
            compounded_interest_rate,
        )?;
        let interest = self.borrowed_amount_wads.try_sub(before)?;
        self.platform_amount_wads = self.platform_amount_wads.try_add(
            interest.try_mul(Decimal::from_percent(self.platform_fees))?,
        )?;
        Ok(())
    }
}


/// Reserve collateral.
#[derive(Clone, Copy, Debug, PartialEq, Eq)]
pub struct ReserveCollateral {
    /// Reserve collateral mint address
    pub mint_pubkey: Pubkey,
    /// Reserve collateral mint supply, used for exchange rate
    pub mint_total_supply: u64,
    /// Reserve collateral supply address
    pub supply_pubkey: Pubkey,
}

/// Parameters of a new reserve collateral.
#[derive(Clone, Copy, Debug)]
pub struct NewReserveCollateralParams {
    pub mint_pubkey: Pubkey,
    pub supply_pubkey: Pubkey,
}

/// The collateral after minting `amount`, which must keep the supply within a `u64`.
pub open spec fn collateral_mint_model(c: ReserveCollateral, amount: u64) -> Result<
    ReserveCollateral,
    LendingError,
> {
    if c.mint_total_supply + amount <= u64::MAX {
        Ok(ReserveCollateral { mint_total_supply: (c.mint_total_supply + amount) as u64, ..c })
    } else {
        Err(LendingError::MathOverflow)
    }
}

/// The collateral after burning `amount`, which the supply must hold.
pub open spec fn collateral_burn_model(c: ReserveCollateral, amount: u64) -> Result<
    ReserveCollateral,
    LendingError,
> {
    if amount <= c.mint_total_supply {
        Ok(ReserveCollateral { mint_total_supply: (c.mint_total_supply - amount) as u64, ..c })
    } else {
        Err(LendingError::MathOverflow)
    }
}

/// Burning what was just minted gives the collateral back.
pub proof fn lemma_collateral_mint_burn(c: ReserveCollateral, amount: u64)
    requires
        collateral_mint_model(c, amount) is Ok,
    ensures
        collateral_burn_model(collateral_mint_model(c, amount)->Ok_0, amount) == Ok::<
            ReserveCollateral,
            LendingError,
        >(c),
{
}

/// Collateral per unit of liquidity: the initial rate for an empty reserve,
/// otherwise minted collateral over total liquidity.
pub open spec fn exchange_rate_model(mint_total_supply: u64, total_liquidity: nat) -> Result<
    nat,
    LendingError,
> {
    if mint_total_supply == 0 || total_liquidity == 0 {
        Ok(INITIAL_COLLATERAL_RATE as nat)
    } else {
        bind(
            lift(scaled_div((mint_total_supply * wad()) as nat, total_liquidity, u192_bound())),
            |v: nat|
                if v < limb2() {
                    Ok(v)
                } else {
                    Err(LendingError::MathOverflow)
                },
        )
    }
}

impl ReserveCollateral {
    /// Create a new reserve collateral.
    pub fn new(params: NewReserveCollateralParams) -> (r: Self)
        ensures
            r.mint_pubkey == params.mint_pubkey,
            r.mint_total_supply == 0,
            r.supply_pubkey == params.supply_pubkey,
    {
        Self { mint_pubkey: params.mint_pubkey, mint_total_supply: 0, supply_pubkey: params.supply_pubkey }
    }

    /// Add collateral to the total supply.
    pub fn mint(&mut self, collateral_amount: u64) -> (r: Result<(), LendingError>)
        ensures
            match collateral_mint_model(*old(self), collateral_amount) {
                Ok(n) => r is Ok && *final(self) == n,
                Err(e) => r == Err::<(), LendingError>(e) && *final(self) == *old(self),
            },
    {
        match self.mint_total_supply.checked_add(collateral_amount) {
            Some(v) => {
                self.mint_total_supply = v;
                Ok(())
            },
            None => Err(LendingError::MathOverflow),
        }
    }

    /// Remove collateral from the total supply.
    pub fn burn(&mut self, collateral_amount: u64) -> (r: Result<(), LendingError>)
        ensures
            match collateral_burn_model(*old(self), collateral_amount) {
                Ok(n) => r is Ok && *final(self) == n,
                Err(e) => r == Err::<(), LendingError>(e) && *final(self) == *old(self),
            },
    {
        match self.mint_total_supply.checked_sub(collateral_amount) {
            Some(v) => {
                self.mint_total_supply = v;
                Ok(())
            },
            None => Err(LendingError::MathOverflow),
        }
    }

    /// The current collateral exchange rate.
    fn exchange_rate(&self, total_liquidity: Decimal) -> (r: Result<CollateralExchangeRate, LendingError>)
        ensures
            view_res(r) == exchange_rate_model(self.mint_total_supply, total_liquidity@),
    {
        let rate = if self.mint_total_supply == 0 || total_liquidity.is_zero() {
            Rate::from_scaled_val(INITIAL_COLLATERAL_RATE)
        } else {
            let mint_total_supply = Decimal::from_u64(self.mint_total_supply);
            Rate::try_from_decimal(mint_total_supply.try_div(total_liquidity)?)?
        };
        Ok(CollateralExchangeRate(rate))
    }
}

/// Reserve configuration values.
#[derive(Clone, Copy, Debug, PartialEq, Eq, Structural)]
pub struct ReserveConfig {
    /// Optimal utilization rate, as a percentage
    pub optimal_utilization_rate: u8,
    /// Degen utilization rate, as a percentage
    pub degen_utilization_rate: u8,
    /// Target ratio of the value of borrows to deposits, as a percentage;
    /// 0 if use as collateral is disabled
    pub loan_to_value_ratio: u8,
    /// Bonus a liquidator gets when repaying part of an unhealthy obligation, as a percentage
    pub liquidation_bonus: u8,
    /// Loan to value ratio at which an obligation can be liquidated, as a percentage
    pub liquidation_threshold: u8,
    /// Min borrow APY
    pub min_borrow_rate: u8,
    /// Optimal (utilization) borrow APY
    pub optimal_borrow_rate: u8,
    /// Degen (utilization) borrow APY
    pub degen_borrow_rate: u8,
    /// Max borrow APY
    pub max_borrow_rate: u8,
    /// Program owner fees assessed, separate from gains due to interest accrual
    pub fees: ReserveFees,
}

/// `p` percent, as a scaled rate.
pub open spec fn pct(p: nat) -> nat {
    p * percent_scaler() as nat
}

/// Linear interpolation on one segment of the borrow-rate curve:
/// `low_rate + (numerator / denominator) * (high_rate - low_rate)`, in percent,
/// with every rate operation checked.
pub open spec fn segment_rate_model(numerator: nat, denominator_pct: int, low_pct: u8, high_pct: u8) -> Result<
    nat,
    LendingError,
> {
    if denominator_pct < 0 || high_pct < low_pct {
        Err(LendingError::MathOverflow)
    } else {
        bind(
            lift(scaled_div(numerator, pct(denominator_pct as nat), limb2())),
            |n: nat|
                bind(
                    lift(scaled_mul(n, pct((high_pct - low_pct) as nat), limb2())),
                    |m: nat|
                        if m + pct(low_pct as nat) < limb2() {
                            Ok(m + pct(low_pct as nat))
                        } else {
                            Err(LendingError::MathOverflow)
                        },
                ),
        )
    }
}

/// The borrow rate for utilization `u`: three linear segments, from the
/// minimum to the optimal rate up to the optimal utilization, on to the degen
/// rate up to the degen utilization, and on to the maximum rate at 100%.
pub open spec fn borrow_rate_model(u: nat, c: ReserveConfig) -> Result<nat, LendingError> {
    let opt = pct(c.optimal_utilization_rate as nat);
    let degen = pct(c.degen_utilization_rate as nat);
    if u <= opt {
        segment_rate_model(u, c.optimal_utilization_rate as int, c.min_borrow_rate, c.optimal_borrow_rate)
    } else if u <= degen {
        segment_rate_model(
            (u - opt) as nat,
            c.degen_utilization_rate - c.optimal_utilization_rate,
            c.optimal_borrow_rate,
            c.degen_borrow_rate,
        )
    } else {
        segment_rate_model(
            (u - degen) as nat,
            100 - c.degen_utilization_rate,
            c.degen_borrow_rate,
            c.max_borrow_rate,
        )
    }
}


/// One segment of the curve at its start gives its low rate.
proof fn lemma_segment_at_start(den: int, lo: u8, hi: u8)
    requires
        0 < den <= 100,
        lo <= hi,
    ensures
        segment_rate_model(0, den, lo, hi) == Ok::<nat, LendingError>(pct(lo as nat)),
{
    assert(pct(den as nat) > 0);
    assert(scaled_div(0, pct(den as nat), limb2()) == Some(0nat));
    assert(scaled_mul(0, pct((hi - lo) as nat), limb2()) == Some(0nat));
}

/// One segment of the curve at its end gives its high rate.
proof fn lemma_segment_at_end(den: int, lo: u8, hi: u8)
    requires
        0 < den <= 100,
        lo <= hi,
    ensures
        segment_rate_model(pct(den as nat), den, lo, hi) == Ok::<nat, LendingError>(pct(hi as nat)),
{
    let d = pct(den as nat) as int;
    let w = wad();
    let rg = pct((hi - lo) as nat) as int;
    assert(0 < d <= 100 * percent_scaler());
    assert(0 <= rg <= 255 * percent_scaler());
    assert(d * w < limb2()) by (nonlinear_arith)
        requires
            0 < d <= 100 * percent_scaler(),
            w == wad(),
    ;
    assert((d * w) / d == w) by (nonlinear_arith)
        requires
            d > 0,
    ;
    assert(w * rg < limb2()) by (nonlinear_arith)
        requires
            0 <= rg <= 255 * percent_scaler(),
            w == wad(),
    ;
    assert((w * rg) / w == rg) by (nonlinear_arith)
        requires
            w > 0,
    ;
    assert(scaled_div(pct(den as nat), pct(den as nat), limb2()) == Some(w as nat));
    assert(scaled_mul(w as nat, pct((hi - lo) as nat), limb2()) == Some(rg as nat));
}

/// Within one segment the rate never falls as the utilization grows.
proof fn lemma_segment_monotone(a: nat, b: nat, den: int, lo: u8, hi: u8)
    requires
        a <= b,
        segment_rate_model(a, den, lo, hi) is Ok,
        segment_rate_model(b, den, lo, hi) is Ok,
    ensures
        segment_rate_model(a, den, lo, hi)->Ok_0 <= segment_rate_model(b, den, lo, hi)->Ok_0,
{
    let d = pct(den as nat) as int;
    let w = wad();
    let rg = pct((hi - lo) as nat) as int;
    assert(d > 0);
    assert(a * w <= b * w) by (nonlinear_arith)
        requires
            a <= b,
            w > 0,
    ;
    vstd::arithmetic::div_mod::lemma_div_is_ordered(a * w, b * w, d);
    let na = (a * w) / d;
    let nb = (b * w) / d;
    assert(na * rg <= nb * rg) by (nonlinear_arith)
        requires
            na <= nb,
            rg >= 0,
    ;
    vstd::arithmetic::div_mod::lemma_div_is_ordered(na * rg, nb * rg, w);
}

/// A segment's rate lies between its low and high rates while the
/// utilization has not passed the segment's end.
proof fn lemma_segment_between(a: nat, den: int, lo: u8, hi: u8)
    requires
        segment_rate_model(a, den, lo, hi) is Ok,
        a <= pct(den as nat),
    ensures
        pct(lo as nat) <= segment_rate_model(a, den, lo, hi)->Ok_0 <= pct(hi as nat),
{
    let d = pct(den as nat) as int;
    let w = wad();
    let rg = pct((hi - lo) as nat) as int;
    assert(d > 0);
    assert(a * w <= d * w) by (nonlinear_arith)
        requires
            a <= d,
            w > 0,
    ;
    vstd::arithmetic::div_mod::lemma_div_is_ordered(a * w, d * w, d);
    assert((d * w) / d == w) by (nonlinear_arith)
        requires
            d > 0,
    ;
    let n = (a * w) / d;
    assert(n * rg <= w * rg) by (nonlinear_arith)
        requires
            n <= w,
            rg >= 0,
    ;
    vstd::arithmetic::div_mod::lemma_div_is_ordered(n * rg, w * rg, w);
    assert((w * rg) / w == rg) by (nonlinear_arith)
        requires
            w > 0,
    ;
    assert(n * rg >= 0) by (nonlinear_arith)
        requires
            n >= 0,
            rg >= 0,
    ;
    vstd::arithmetic::div_mod::lemma_div_pos_is_pos(n * rg, w);
}

/// The borrow-rate curve is well shaped: optimal utilization above zero,
/// degen utilization above it and below 100%, and the minimum, optimal,
/// degen and maximum rates in that order.
pub open spec fn rate_curve_ordered(c: ReserveConfig) -> bool {
    &&& 0 < c.optimal_utilization_rate < c.degen_utilization_rate < 100
    &&& c.min_borrow_rate <= c.optimal_borrow_rate <= c.degen_borrow_rate <= c.max_borrow_rate
}

/// On a well-shaped curve, the borrow rate is the minimum rate at zero
/// utilization, the optimal rate at the optimal utilization and the degen
/// rate at the degen utilization.
pub proof fn lemma_borrow_rate_at_the_knees(c: ReserveConfig)
    requires
        rate_curve_ordered(c),
    ensures
        borrow_rate_model(0, c) == Ok::<nat, LendingError>(pct(c.min_borrow_rate as nat)),
        borrow_rate_model(pct(c.optimal_utilization_rate as nat), c) == Ok::<nat, LendingError>(
            pct(c.optimal_borrow_rate as nat),
        ),
        borrow_rate_model(pct(c.degen_utilization_rate as nat), c) == Ok::<nat, LendingError>(
            pct(c.degen_borrow_rate as nat),
        ),
{
    lemma_segment_at_start(c.optimal_utilization_rate as int, c.min_borrow_rate, c.optimal_borrow_rate);
    lemma_segment_at_end(c.optimal_utilization_rate as int, c.min_borrow_rate, c.optimal_borrow_rate);
    let span = c.degen_utilization_rate - c.optimal_utilization_rate;
    lemma_segment_at_end(span, c.optimal_borrow_rate, c.degen_borrow_rate);
    assert(pct(c.degen_utilization_rate as nat) - pct(c.optimal_utilization_rate as nat) == pct(
        span as nat,
    ));
}

/// The borrow rate never falls as utilization grows: on a well-shaped curve,
/// of two utilizations at which the rate is defined, the higher one has the
/// rate at least as high.
pub proof fn lemma_borrow_rate_never_falls(c: ReserveConfig, u1: nat, u2: nat)
    requires
        rate_curve_ordered(c),
        u1 <= u2,
        borrow_rate_model(u1, c) is Ok,
        borrow_rate_model(u2, c) is Ok,
    ensures
        borrow_rate_model(u1, c)->Ok_0 <= borrow_rate_model(u2, c)->Ok_0,
{
    let opt = pct(c.optimal_utilization_rate as nat);
    let degen = pct(c.degen_utilization_rate as nat);
    let span = c.degen_utilization_rate - c.optimal_utilization_rate;
    let rest = 100 - c.degen_utilization_rate;
    assert(degen - opt == pct(span as nat));
    if u2 <= opt {
        lemma_segment_monotone(
            u1,
            u2,
            c.optimal_utilization_rate as int,
            c.min_borrow_rate,
            c.optimal_borrow_rate,
        );
    } else if u2 <= degen {
        if u1 <= opt {
            lemma_segment_between(
                u1,
                c.optimal_utilization_rate as int,
                c.min_borrow_rate,
                c.optimal_borrow_rate,
            );
            lemma_segment_between(
                (u2 - opt) as nat,
                span,
                c.optimal_borrow_rate,
                c.degen_borrow_rate,
            );
        } else {
            lemma_segment_monotone(
                (u1 - opt) as nat,
                (u2 - opt) as nat,
                span,
                c.optimal_borrow_rate,
                c.degen_borrow_rate,
            );
        }
    } else {
        if u1 <= opt {
            lemma_segment_between(
                u1,
                c.optimal_utilization_rate as int,
                c.min_borrow_rate,
                c.optimal_borrow_rate,
            );
        } else if u1 <= degen {
            lemma_segment_between(
                (u1 - opt) as nat,
                span,
                c.optimal_borrow_rate,
                c.degen_borrow_rate,
            );
        } else {
            lemma_segment_monotone(
                (u1 - degen) as nat,
                (u2 - degen) as nat,
                rest,
                c.degen_borrow_rate,
                c.max_borrow_rate,
            );
        }
        if u1 <= degen {
            lemma_segment_at_start(rest, c.degen_borrow_rate, c.max_borrow_rate);
            let x = segment_rate_model((u2 - degen) as nat, rest, c.degen_borrow_rate, c.max_borrow_rate);
            assert(x->Ok_0 >= pct(c.degen_borrow_rate as nat));
        }
    }
}

/// Of two reserves with the same well-shaped curve, the one whose
/// utilization is no lower has a current borrow rate no lower, when both
/// rates can be computed.
pub proof fn lemma_current_borrow_rate_never_falls(r1: Reserve, r2: Reserve)
    requires
        r1.config == r2.config,
        rate_curve_ordered(r1.config),
        utilization_model(r1.liquidity) is Ok,
        utilization_model(r2.liquidity) is Ok,
        utilization_model(r1.liquidity)->Ok_0 <= utilization_model(r2.liquidity)->Ok_0,
        bind(utilization_model(r1.liquidity), |u: nat| borrow_rate_model(u, r1.config)) is Ok,
        bind(utilization_model(r2.liquidity), |u: nat| borrow_rate_model(u, r2.config)) is Ok,
    ensures
        bind(utilization_model(r1.liquidity), |u: nat| borrow_rate_model(u, r1.config))->Ok_0 <= bind(
            utilization_model(r2.liquidity),
            |u: nat| borrow_rate_model(u, r2.config),
        )->Ok_0,
{
    lemma_borrow_rate_never_falls(
        r1.config,
        utilization_model(r1.liquidity)->Ok_0,
        utilization_model(r2.liquidity)->Ok_0,
    );
}

/// Lending market reserve state.
#[derive(Clone, Copy, Debug, PartialEq, Eq)]
pub struct Reserve {
    /// Version of the struct
    pub version: u8,
    /// Last slot when supply and rates updated
    pub last_update: LastUpdate,
    /// Lending market address
    pub lending_market: Pubkey,
    /// Address which must sign borrow instructions
    pub borrow_authorizer: Pubkey,
    /// Reserve liquidity
    pub liquidity: ReserveLiquidity,
    /// Reserve collateral
    pub collateral: ReserveCollateral,
    /// Reserve configuration values
    pub config: ReserveConfig,
}

/// Parameters of a new reserve.
#[derive(Clone, Copy, Debug)]
pub struct InitReserveParams {
    /// Last slot when supply and rates updated
    pub current_slot: u64,
    /// Lending market address
    pub lending_market: Pubkey,
    /// Borrow instruction authorizer
    pub borrow_authorizer: Pubkey,
    /// Reserve liquidity
    pub liquidity: ReserveLiquidity,
    /// Reserve collateral
    pub collateral: ReserveCollateral,
    /// Reserve configuration values
    pub config: ReserveConfig,
}

/// Result of a borrow calculation.
#[derive(Clone, Copy, Debug)]
pub struct CalculateBorrowResult {
    /// Total amount of borrow including fees
    pub borrow_amount: Decimal,
    /// Borrow amount portion of total amount
    pub receive_amount: u64,
    /// Loan origination fee
    pub borrow_fee: u64,
    /// Host fee portion of origination fee
    pub host_fee: u64,
}

impl View for CalculateBorrowResult {
    type V = (nat, u64, u64, u64);

    open spec fn view(&self) -> (nat, u64, u64, u64) {
        (self.borrow_amount@, self.receive_amount, self.borrow_fee, self.host_fee)
    }
}

/// Result of a repay calculation.
#[derive(Clone, Copy, Debug)]
pub struct CalculateRepayResult {
    /// Amount of liquidity that is settled from the obligation.
    pub settle_amount: Decimal,
    /// Amount that will be repaid as u64
    pub repay_amount: u64,
}

impl View for CalculateRepayResult {
    type V = (nat, u64);

    open spec fn view(&self) -> (nat, u64) {
        (self.settle_amount@, self.repay_amount)
    }
}

/// Result of a liquidation calculation.
#[derive(Clone, Copy, Debug)]
pub struct CalculateLiquidationResult {
    /// Amount of liquidity that is settled from the obligation, including the
    /// defaulted loan when the collateral is depleted.
    pub settle_amount: Decimal,
    /// Amount that will be repaid as u64
    pub repay_amount: u64,
    /// Amount of collateral to withdraw in exchange for repay amount
    pub withdraw_amount: u64,
}

impl View for CalculateLiquidationResult {
    type V = (nat, u64, u64);

    open spec fn view(&self) -> (nat, u64, u64) {
        (self.settle_amount@, self.repay_amount, self.withdraw_amount)
    }
}

/// 10 to the power `e`, when it fits a `u64`.
pub open spec fn pow10_model(e: u8) -> Result<u64, LendingError> {
    if vstd::arithmetic::power::pow(10, e as nat) <= u64::MAX {
        Ok(vstd::arithmetic::power::pow(10, e as nat) as u64)
    } else {
        Err(LendingError::MathOverflow)
    }
}

/// `10^e`, or `None` when it overflows a `u64`.
pub(crate) fn checked_pow10(e: u8) -> (r: Result<u64, LendingError>)
    ensures
        r == pow10_model(e),
{
    let mut acc: u64 = 1;
    let mut i: u8 = 0;
    proof {
        vstd::arithmetic::power::lemma_pow0(10);
    }
    while i < e
        invariant
            0 <= i <= e,
            acc == vstd::arithmetic::power::pow(10, i as nat),
        decreases e - i,
    {
        proof {
            vstd::arithmetic::power::lemma_pow_adds(10, i as nat, 1);
            vstd::arithmetic::power::lemma_pow1(10);
        }
        match acc.checked_mul(10) {
            Some(v) => {
                acc = v;
            },
            None => {
                proof {
                    vstd::arithmetic::power::lemma_pow_increases(10, (i + 1) as nat, e as nat);
                }
                return Err(LendingError::MathOverflow);
            },
        }
        i = i + 1;
    }
    Ok(acc)
}

/// The smaller of two naturals.
pub open spec fn min_nat(a: nat, b: nat) -> nat {
    if a <= b {
        a
    } else {
        b
    }
}

/// Borrow of everything `max_borrow_value` allows (or all available
/// liquidity, if less), fees included in the amount.
pub open spec fn borrow_max_model(r: Reserve, decimals: u64, max_borrow_value: nat) -> Result<
    (nat, u64, u64, u64),
    LendingError,
> {
    bind(
        lift(plain_mul(max_borrow_value, decimals as nat, u192_bound())),
        |x: nat|
            bind(
                lift(scaled_div(x, r.liquidity.market_price@, u192_bound())),
                |y: nat|
                    {
                        let borrow_amount = min_nat(y, (r.liquidity.available_amount * wad()) as nat);
                        bind(
                            fees_model(
                                borrow_amount,
                                r.config.fees.borrow_fee_wad,
                                r.config.fees.host_fee_percentage,
                                true,
                            ),
                            |f: (u64, u64)|
                                bind(
                                    lift(floor_to_u64(borrow_amount)),
                                    |whole: u64|
                                        if whole >= f.0 {
                                            Ok((borrow_amount, (whole - f.0) as u64, f.0, f.1))
                                        } else {
                                            Err(LendingError::MathOverflow)
                                        },
                                ),
                        )
                    },
            ),
    )
}

/// Borrow of exactly `amount` tokens, fees added on top, refused when the
/// borrowed value exceeds `max_borrow_value`.
pub open spec fn borrow_exact_model(r: Reserve, decimals: u64, amount: u64, max_borrow_value: nat) -> Result<
    (nat, u64, u64, u64),
    LendingError,
> {
    bind(
        fees_model(
            (amount * wad()) as nat,
            r.config.fees.borrow_fee_wad,
            r.config.fees.host_fee_percentage,
            false,
        ),
        |f: (u64, u64)|
            {
                let borrow_amount = amount * wad() + f.0 * wad();
                if borrow_amount >= u192_bound() {
                    Err(LendingError::MathOverflow)
                } else {
                    bind(
                        lift(scaled_mul(borrow_amount as nat, r.liquidity.market_price@, u192_bound())),
                        |v: nat|
                            if decimals == 0 {
                                Err(LendingError::MathOverflow)
                            } else if v / (decimals as nat) > max_borrow_value {
                                Err(LendingError::BorrowTooLarge)
                            } else {
                                Ok((borrow_amount as nat, amount, f.0, f.1))
                            },
                    )
                }
            },
    )
}

/// Liquidity borrowed for `amount_to_borrow` tokens: everything allowed when
/// it is `u64::MAX`, that exact amount otherwise.
pub open spec fn calculate_borrow_model(r: Reserve, amount_to_borrow: u64, max_borrow_value: nat) -> Result<
    (nat, u64, u64, u64),
    LendingError,
> {
    bind(
        pow10_model(r.liquidity.mint_decimals),
        |decimals: u64|
            if amount_to_borrow == u64::MAX {
                borrow_max_model(r, decimals, max_borrow_value)
            } else {
                borrow_exact_model(r, decimals, amount_to_borrow, max_borrow_value)
            },
    )
}

/// An exact borrow is refused as too large exactly when the value of what
/// would be borrowed exceeds the maximum borrow value: the amount plus its
/// fee, in base units, times the market price, over 10 to the mint's
/// decimals, rounded down. Otherwise it is granted as asked, the fee on top.
pub proof fn lemma_exact_borrow_refused_by_value(r: Reserve, amount: u64, max_borrow_value: nat)
    requires
        amount != u64::MAX,
        pow10_model(r.liquidity.mint_decimals) is Ok,
        fees_model(
            (amount * wad()) as nat,
            r.config.fees.borrow_fee_wad,
            r.config.fees.host_fee_percentage,
            false,
        ) is Ok,
        ({
            let fee = fees_model(
                (amount * wad()) as nat,
                r.config.fees.borrow_fee_wad,
                r.config.fees.host_fee_percentage,
                false,
            )->Ok_0.0;
            &&& (amount + fee) * wad() < u192_bound()
            &&& (amount + fee) * wad() * r.liquidity.market_price@ < u192_bound()
        }),
    ensures
        ({
            let decimals = pow10_model(r.liquidity.mint_decimals)->Ok_0;
            let (fee, host) = fees_model(
                (amount * wad()) as nat,
                r.config.fees.borrow_fee_wad,
                r.config.fees.host_fee_percentage,
                false,
            )->Ok_0;
            let value = ((amount + fee) * r.liquidity.market_price@) / (decimals as int);
            &&& value > max_borrow_value ==> calculate_borrow_model(r, amount, max_borrow_value)
                == Err::<(nat, u64, u64, u64), LendingError>(LendingError::BorrowTooLarge)
            &&& value <= max_borrow_value ==> calculate_borrow_model(r, amount, max_borrow_value)
                == Ok::<(nat, u64, u64, u64), LendingError>(
                (((amount + fee) * wad()) as nat, amount, fee, host),
            )
        }),
{
    let e = r.liquidity.mint_decimals as nat;
    vstd::arithmetic::power::lemma_pow_positive(10, e);
    let fee = fees_model(
        (amount * wad()) as nat,
        r.config.fees.borrow_fee_wad,
        r.config.fees.host_fee_percentage,
        false,
    )->Ok_0.0;
    let t = amount + fee;
    let p = r.liquidity.market_price@ as int;
    let w = wad();
    assert(t * w * p == (t * p) * w) by (nonlinear_arith);
    assert(t * w == amount * w + fee * w) by (nonlinear_arith)
        requires
            t == amount + fee,
    ;
    vstd::arithmetic::div_mod::lemma_div_by_multiple(t * p, w);
    assert(t * p >= 0) by (nonlinear_arith)
        requires
            t >= 0,
            p >= 0,
    ;
}

/// Borrowing whole tokens from a reserve that charges no borrow fee is
/// refused as too large exactly when the tokens are worth more than the
/// maximum borrow value, each token being worth the market price, whatever
/// the mint's decimals.
pub proof fn lemma_whole_token_borrow(r: Reserve, tokens: nat, max_borrow_value: nat)
    requires
        r.config.fees.borrow_fee_wad == 0,
        pow10_model(r.liquidity.mint_decimals) is Ok,
        tokens * pow10_model(r.liquidity.mint_decimals)->Ok_0 < u64::MAX,
        tokens * pow10_model(r.liquidity.mint_decimals)->Ok_0 * wad() * r.liquidity.market_price@
            < u192_bound(),
        tokens * pow10_model(r.liquidity.mint_decimals)->Ok_0 * wad() < u192_bound(),
    ensures
        ({
            let amount = (tokens * pow10_model(r.liquidity.mint_decimals)->Ok_0) as u64;
            &&& tokens * r.liquidity.market_price@ > max_borrow_value ==> calculate_borrow_model(
                r,
                amount,
                max_borrow_value,
            ) == Err::<(nat, u64, u64, u64), LendingError>(LendingError::BorrowTooLarge)
            &&& tokens * r.liquidity.market_price@ <= max_borrow_value ==> calculate_borrow_model(
                r,
                amount,
                max_borrow_value,
            ) == Ok::<(nat, u64, u64, u64), LendingError>(
                ((amount * wad()) as nat, amount, 0u64, 0u64),
            )
        }),
{
    let d = pow10_model(r.liquidity.mint_decimals)->Ok_0 as int;
    let amount = (tokens * d) as u64;
    let p = r.liquidity.market_price@ as int;
    vstd::arithmetic::power::lemma_pow_positive(10, r.liquidity.mint_decimals as nat);
    assert(fees_model((amount * wad()) as nat, 0, r.config.fees.host_fee_percentage, false) == Ok::<
        (u64, u64),
        LendingError,
    >((0u64, 0u64)));
    lemma_exact_borrow_refused_by_value(r, amount, max_borrow_value);
    assert((amount + 0) * p == (tokens * p) * d) by (nonlinear_arith)
        requires
            amount == tokens * d,
    ;
    vstd::arithmetic::div_mod::lemma_div_by_multiple(tokens * p, d);
}

/// Settled and repaid amounts for a repayment of `amount_to_repay` against
/// `borrowed`: all of it for `u64::MAX`, otherwise at most the borrowed
/// amount; the repayment rounded up.
pub open spec fn calculate_repay_model(amount_to_repay: u64, borrowed: nat) -> Result<
    (nat, u64),
    LendingError,
> {
    let settle = if amount_to_repay == u64::MAX {
        borrowed
    } else {
        min_nat((amount_to_repay * wad()) as nat, borrowed)
    };
    bind(lift(crate::math::ceil_to_u64(settle, u192_bound())), |repay: u64| Ok((settle, repay)))
}

/// A repayment never settles more than is borrowed, and the tokens it takes
/// cover what it settles: the repay amount is the settled amount rounded up,
/// and never more than was offered unless everything is repaid.
pub proof fn lemma_repay_covers_settlement(amount_to_repay: u64, borrowed: nat)
    requires
        calculate_repay_model(amount_to_repay, borrowed) is Ok,
    ensures
        ({
            let (settle, repay) = calculate_repay_model(amount_to_repay, borrowed)->Ok_0;
            &&& settle <= borrowed
            &&& settle <= repay * wad() < settle + wad()
            &&& amount_to_repay != u64::MAX ==> repay <= amount_to_repay
        }),
{
    let settle = calculate_repay_model(amount_to_repay, borrowed)->Ok_0.0;
    let repay = calculate_repay_model(amount_to_repay, borrowed)->Ok_0.1;
    let w = wad();
    assert(repay == (settle + w - 1) / w);
    vstd::arithmetic::div_mod::lemma_fundamental_div_mod(settle + w - 1, w);
    vstd::arithmetic::div_mod::lemma_mod_pos_bound(settle + w - 1, w);
    assert(settle <= repay * w < settle + w) by (nonlinear_arith)
        requires
            settle + w - 1 == w * ((settle + w - 1) / w) + (settle + w - 1) % w,
            0 <= (settle + w - 1) % w < w,
            repay == (settle + w - 1) / w,
            w > 0,
    ;
    if amount_to_repay != u64::MAX {
        assert(settle <= amount_to_repay * w);
        assert(repay <= amount_to_repay) by (nonlinear_arith)
            requires
                repay * w < settle + w,
                settle <= amount_to_repay * w,
                w > 0,
        ;
    }
}

impl Reserve {
    /// Create a new reserve.
    pub fn new(params: InitReserveParams) -> (r: Self)
        ensures
            r.version == PROGRAM_VERSION,
            r.last_update == (LastUpdate { slot: params.current_slot, stale: true }),
            r.lending_market == params.lending_market,
            r.borrow_authorizer == params.borrow_authorizer,
            r.liquidity == params.liquidity,
            r.collateral == params.collateral,
            r.config == params.config,
    {
        let mut reserve = Reserve {
            version: UNINITIALIZED_VERSION,
            last_update: LastUpdate { slot: 0, stale: false },
            lending_market: Pubkey::zeroed(),
            borrow_authorizer: Pubkey::zeroed(),
            liquidity: params.liquidity,
            collateral: params.collateral,
            config: params.config,
        };
        reserve.init(params);
        reserve
    }

    /// Initialize a reserve.
    pub fn init(&mut self, params: InitReserveParams)
        ensures
            final(self).version == PROGRAM_VERSION,
            final(self).last_update == (LastUpdate { slot: params.current_slot, stale: true }),
            final(self).lending_market == params.lending_market,
            final(self).borrow_authorizer == params.borrow_authorizer,
            final(self).liquidity == params.liquidity,
            final(self).collateral == params.collateral,
            final(self).config == params.config,
    {
        self.version = PROGRAM_VERSION;
        self.last_update = LastUpdate::new(params.current_slot);
        self.lending_market = params.lending_market;
        self.borrow_authorizer = params.borrow_authorizer;
        self.liquidity = params.liquidity;
        self.collateral = params.collateral;
        self.config = params.config;
    }

    /// Update reserve configurations.
    pub fn update(&mut self, config: ReserveConfig)
        ensures
            *final(self) == (Reserve { config, ..*old(self) }),
    {
        self.config = config;
    }

    /// Collateral exchange rate.
    pub fn collateral_exchange_rate(&self) -> (r: Result<CollateralExchangeRate, LendingError>)
        ensures
            view_res(r) == bind(
                total_supply_model(self.liquidity),
                |t: nat| exchange_rate_model(self.collateral.mint_total_supply, t),
            ),
    {
        let total_liquidity = self.liquidity.total_supply()?;
        self.collateral.exchange_rate(total_liquidity)
    }

    /// The current borrow rate, from the reserve's utilization.
    pub fn current_borrow_rate(&self) -> (r: Result<Rate, LendingError>)
        ensures
            view_res(r) == bind(
                utilization_model(self.liquidity),
                |u: nat| borrow_rate_model(u, self.config),
            ),
    {
        let utilization_rate = self.liquidity.utilization_rate()?;
        let optimal_utilization_rate = Rate::from_percent(self.config.optimal_utilization_rate);
        let degen_utilization_rate = Rate::from_percent(self.config.degen_utilization_rate);
        if utilization_rate.0 <= optimal_utilization_rate.0 {
            let normalized_rate = utilization_rate.try_div(optimal_utilization_rate)?;
            let min_rate = Rate::from_percent(self.config.min_borrow_rate);
            let rate_range = Rate::from_percent(
                match self.config.optimal_borrow_rate.checked_sub(self.config.min_borrow_rate) {
                    Some(v) => v,
                    None => {
                        return Err(LendingError::MathOverflow);
                    },
                },
            );
            Ok(normalized_rate.try_mul(rate_range)?.try_add(min_rate)?)
        } else if utilization_rate.0 > optimal_utilization_rate.0 && utilization_rate.0
            <= degen_utilization_rate.0 {
            let normalized_rate = utilization_rate.try_sub(optimal_utilization_rate)?.try_div(
                Rate::from_percent(
                    match self.config.degen_utilization_rate.checked_sub(
                        self.config.optimal_utilization_rate,
                    ) {
                        Some(v) => v,
                        None => {
                            return Err(LendingError::MathOverflow);
                        },
                    },
                ),
            )?;
            let min_rate = Rate::from_percent(self.config.optimal_borrow_rate);
            let rate_range = Rate::from_percent(
                match self.config.degen_borrow_rate.checked_sub(self.config.optimal_borrow_rate) {
                    Some(v) => v,
                    None => {
                        return Err(LendingError::MathOverflow);
                    },
                },
            );
            Ok(normalized_rate.try_mul(rate_range)?.try_add(min_rate)?)
        } else {
            let normalized_rate = utilization_rate.try_sub(degen_utilization_rate)?.try_div(
                Rate::from_percent(
                    match 100u8.checked_sub(self.config.degen_utilization_rate) {
                        Some(v) => v,
                        None => {
                            return Err(LendingError::MathOverflow);
                        },
                    },
                ),
            )?;
            let min_rate = Rate::from_percent(self.config.degen_borrow_rate);
            let rate_range = Rate::from_percent(
                match self.config.max_borrow_rate.checked_sub(self.config.degen_borrow_rate) {
                    Some(v) => v,
                    None => {
                        return Err(LendingError::MathOverflow);
                    },
                },
            );
            Ok(normalized_rate.try_mul(rate_range)?.try_add(min_rate)?)
        }
    }

    /// Borrow liquidity up to a maximum market value.
    pub fn calculate_borrow(&self, amount_to_borrow: u64, max_borrow_value: Decimal) -> (r: Result<
        CalculateBorrowResult,
        LendingError,
    >)
        ensures
            view_res(r) == calculate_borrow_model(*self, amount_to_borrow, max_borrow_value@),
    {
        let decimals = checked_pow10(self.liquidity.mint_decimals)?;
        if amount_to_borrow == u64::MAX {
            let borrow_amount = max_borrow_value.try_mul_u64(decimals)?.try_div(
                self.liquidity.market_price,
            )?.min(Decimal::from_u64(self.liquidity.available_amount));
            let (borrow_fee, host_fee) = self.config.fees.calculate_borrow_fees(
                borrow_amount,
                FeeCalculation::Inclusive,
            )?;
            let whole = borrow_amount.try_floor_u64()?;
            let receive_amount = match whole.checked_sub(borrow_fee) {
                Some(v) => v,
                None => {
                    return Err(LendingError::MathOverflow);
                },
            };
            Ok(CalculateBorrowResult { borrow_amount, receive_amount, borrow_fee, host_fee })
        } else {
            let receive_amount = amount_to_borrow;
            let borrow_amount = Decimal::from_u64(receive_amount);
            let (borrow_fee, host_fee) = self.config.fees.calculate_borrow_fees(
                borrow_amount,
                FeeCalculation::Exclusive,
            )?;
            let borrow_amount = borrow_amount.try_add(Decimal::from_u64(borrow_fee))?;
            let borrow_value = borrow_amount.try_mul(self.liquidity.market_price)?.try_div_u64(
                decimals,
            )?;
            if max_borrow_value.lt(&borrow_value) {
                return Err(LendingError::BorrowTooLarge);
            }
            Ok(CalculateBorrowResult { borrow_amount, receive_amount, borrow_fee, host_fee })
        }
    }

    /// Borrow exactly `amount_to_borrow`, fees added on top, with no bound on
    /// the borrowed value.
    pub fn margin_calculate_borrow(&self, amount_to_borrow: u64) -> (r: Result<
        CalculateBorrowResult,
        LendingError,
    >)
        ensures
            view_res(r) == bind(
                fees_model(
                    (amount_to_borrow * wad()) as nat,
                    self.config.fees.borrow_fee_wad,
                    self.config.fees.host_fee_percentage,
                    false,
                ),
                |f: (u64, u64)|
                    if amount_to_borrow * wad() + f.0 * wad() < u192_bound() {
                        Ok(((amount_to_borrow * wad() + f.0 * wad()) as nat, amount_to_borrow, f.0, f.1))
                    } else {
                        Err(LendingError::MathOverflow)
                    },
            ),
    {
        let receive_amount = amount_to_borrow;
        let borrow_amount = Decimal::from_u64(receive_amount);
        let (borrow_fee, host_fee) = self.config.fees.calculate_borrow_fees(
            borrow_amount,
            FeeCalculation::Exclusive,
        )?;
        let borrow_amount = borrow_amount.try_add(Decimal::from_u64(borrow_fee))?;
        Ok(CalculateBorrowResult { borrow_amount, receive_amount, borrow_fee, host_fee })
    }

    /// Repay liquidity up to the borrowed amount.
    pub fn calculate_repay(&self, amount_to_repay: u64, borrowed_amount: Decimal) -> (r: Result<
        CalculateRepayResult,
        LendingError,
    >)
        ensures
            view_res(r) == calculate_repay_model(amount_to_repay, borrowed_amount@),
    {
        let settle_amount = if amount_to_repay == u64::MAX {
            borrowed_amount
        } else {
            Decimal::from_u64(amount_to_repay).min(borrowed_amount)
        };
        let repay_amount = settle_amount.try_ceil_u64()?;
        Ok(CalculateRepayResult { settle_amount, repay_amount })
    }
}


/// Repaid and withdrawn amounts once the liquidation value `lv` of the settled
/// debt `settle` is known: when it exceeds the collateral's value the whole
/// collateral goes and the repayment shrinks in proportion (rounded up); when
/// it equals it the whole collateral goes; otherwise the repayment is the
/// settled debt rounded down and the collateral withdrawn shrinks in
/// proportion (rounded down).
pub open spec fn liquidation_split_model(
    settle_for_repay: nat,
    lv: nat,
    collateral: LendingObligationCollateral,
    settle_is_fixed: bool,
) -> Result<(nat, u64, u64), LendingError> {
    let cmv = collateral.market_value@;
    if lv > cmv {
        bind(
            lift(scaled_div(cmv, lv, u192_bound())),
            |rp: nat|
                bind(
                    lift(scaled_mul(settle_for_repay, rp, u192_bound())),
                    |scaled: nat|
                        bind(
                            lift(crate::math::ceil_to_u64(scaled, u192_bound())),
                            |repay: u64|
                                Ok(
                                    (
                                        if settle_is_fixed {
                                            0nat
                                        } else {
                                            scaled
                                        },
                                        repay,
                                        collateral.deposited_amount,
                                    ),
                                ),
                        ),
                ),
        )
    } else if lv == cmv {
        bind(
            lift(crate::math::ceil_to_u64(settle_for_repay, u192_bound())),
            |repay: u64| Ok((settle_for_repay, repay, collateral.deposited_amount)),
        )
    } else {
        bind(
            lift(scaled_div(lv, cmv, u192_bound())),
            |wp: nat|
                bind(
                    lift(floor_to_u64(settle_for_repay)),
                    |repay: u64|
                        bind(
                            lift(
                                scaled_mul(
                                    (collateral.deposited_amount * wad()) as nat,
                                    wp,
                                    u192_bound(),
                                ),
                            ),
                            |w: nat|
                                bind(
                                    lift(floor_to_u64(w)),
                                    |withdraw: u64| Ok((settle_for_repay, repay, withdraw)),
                                ),
                        ),
                ),
        )
    }
}

/// Settled, repaid and withdrawn amounts of a liquidation of
/// `amount_to_liquidate` (all of the borrow for `u64::MAX`). Borrows below the
/// close amount are settled whole; larger ones at most up to the close factor.
pub open spec fn liquidation_model(
    r: Reserve,
    amount_to_liquidate: u64,
    obligation_borrowed_value: nat,
    liquidity: LendingObligationLiquidity,
    collateral: LendingObligationCollateral,
) -> Result<(nat, u64, u64), LendingError> {
    let bonus = pct(r.config.liquidation_bonus as nat) + wad();
    let borrowed = liquidity.borrowed_amount_wads@;
    let max_amount = if amount_to_liquidate == u64::MAX {
        borrowed
    } else {
        min_nat((amount_to_liquidate * wad()) as nat, borrowed)
    };
    if bonus >= limb2() {
        Err(LendingError::MathOverflow)
    } else if borrowed < LIQUIDATION_CLOSE_AMOUNT * wad() {
        bind(
            lift(scaled_mul(liquidity.market_value@, bonus as nat, u192_bound())),
            |lv: nat|
                bind(
                    liquidation_split_model(max_amount, lv, collateral, true),
                    |t: (nat, u64, u64)| Ok((borrowed, t.1, t.2)),
                ),
        )
    } else {
        bind(
            max_liquidation_model(obligation_borrowed_value, liquidity),
            |m: nat|
                {
                    let la = min_nat(m, max_amount);
                    bind(
                        lift(scaled_div(la, borrowed, u192_bound())),
                        |lp: nat|
                            bind(
                                lift(scaled_mul(liquidity.market_value@, lp, u192_bound())),
                                |v: nat|
                                    bind(
                                        lift(scaled_mul(v, bonus as nat, u192_bound())),
                                        |lv: nat| liquidation_split_model(la, lv, collateral, false),
                                    ),
                            ),
                    )
                },
        )
    }
}

/// When the debt's value with the liquidation bonus exceeds the
/// collateral's value, a liquidation settles only the share of the debt that
/// the collateral covers: the settled amount times the liquidation value is
/// at most the amount being liquidated times the collateral's value, so it is
/// less than that amount whenever there is any. The repayment is the settled
/// amount rounded up, and all the collateral is withdrawn.
pub proof fn lemma_underwater_liquidation_settles_in_proportion(
    la: nat,
    lv: nat,
    collateral: LendingObligationCollateral,
)
    requires
        lv > collateral.market_value@,
        liquidation_split_model(la, lv, collateral, false) is Ok,
    ensures
        ({
            let (settle, repay, withdraw) = liquidation_split_model(la, lv, collateral, false)->Ok_0;
            &&& settle * lv <= la * collateral.market_value@
            &&& la > 0 ==> settle < la
            &&& settle <= repay * wad() < settle + wad()
            &&& withdraw == collateral.deposited_amount
        }),
{
    let cmv = collateral.market_value@ as int;
    let w = wad();
    let l = lv as int;
    let rp = (cmv * w) / l;
    let settle = (la * rp) / w;
    let repay = liquidation_split_model(la, lv, collateral, false)->Ok_0.1 as int;
    vstd::arithmetic::div_mod::lemma_fundamental_div_mod(cmv * w, l);
    vstd::arithmetic::div_mod::lemma_mod_pos_bound(cmv * w, l);
    assert(rp * l <= cmv * w);
    assert(cmv * w >= 0) by (nonlinear_arith)
        requires
            cmv >= 0,
            w > 0,
    ;
    vstd::arithmetic::div_mod::lemma_div_pos_is_pos(cmv * w, l);
    assert(la * rp >= 0) by (nonlinear_arith)
        requires
            rp >= 0,
    ;
    vstd::arithmetic::div_mod::lemma_fundamental_div_mod(la * rp, w);
    vstd::arithmetic::div_mod::lemma_mod_pos_bound(la * rp, w);
    assert(settle * w <= la * rp);
    assert(settle * l <= la * cmv) by (nonlinear_arith)
        requires
            settle * w <= la * rp,
            rp * l <= cmv * w,
            w > 0,
            l > 0,
            la >= 0,
            settle >= 0,
            rp >= 0,
    ;
    if la > 0 {
        assert(la * cmv < la * l) by (nonlinear_arith)
            requires
                la > 0,
                cmv < l,
        ;
        assert(settle < la) by (nonlinear_arith)
            requires
                settle * l < la * l,
                l > 0,
        ;
    }
    assert(repay == (settle + w - 1) / w);
    vstd::arithmetic::div_mod::lemma_fundamental_div_mod(settle + w - 1, w);
    vstd::arithmetic::div_mod::lemma_mod_pos_bound(settle + w - 1, w);
    assert(settle <= repay * w < settle + w) by (nonlinear_arith)
        requires
            settle + w - 1 == w * repay + (settle + w - 1) % w,
            0 <= (settle + w - 1) % w < w,
    ;
}

/// What any branch of a liquidation's split gives: the withdrawal never
/// exceeds the collateral deposited, and unless the settlement is fixed it
/// never exceeds the amount being liquidated.
proof fn lemma_split_bounded(
    la: nat,
    lv: nat,
    collateral: LendingObligationCollateral,
    settle_is_fixed: bool,
)
    requires
        liquidation_split_model(la, lv, collateral, settle_is_fixed) is Ok,
    ensures
        ({
            let (settle, repay, withdraw) = liquidation_split_model(la, lv, collateral, settle_is_fixed)->Ok_0;
            &&& withdraw <= collateral.deposited_amount
            &&& !settle_is_fixed ==> settle <= la
        }),
{
    let cmv = collateral.market_value@ as int;
    let w = wad();
    if lv > cmv {
        if !settle_is_fixed {
            lemma_underwater_liquidation_settles_in_proportion(la, lv, collateral);
            if la == 0 {
                let settle = liquidation_split_model(la, lv, collateral, false)->Ok_0.0 as int;
                assert(la * collateral.market_value@ == 0) by (nonlinear_arith)
                    requires
                        la == 0,
                ;
                assert(settle == 0) by (nonlinear_arith)
                    requires
                        settle * lv <= 0,
                        lv > 0,
                        settle >= 0,
                ;
            }
        }
    } else if lv < cmv {
        let l = lv as int;
        let wp = (l * w) / cmv;
        let dep = collateral.deposited_amount as int;
        assert(l * w <= cmv * w) by (nonlinear_arith)
            requires
                l < cmv,
                w > 0,
        ;
        vstd::arithmetic::div_mod::lemma_div_is_ordered(l * w, cmv * w, cmv);
        vstd::arithmetic::div_mod::lemma_div_by_multiple(w, cmv);
        assert((cmv * w) / cmv == w) by (nonlinear_arith)
            requires
                (w * cmv) / cmv == w,
        ;
        assert(dep * w * wp <= dep * w * w) by (nonlinear_arith)
            requires
                wp <= w,
                dep >= 0,
                w > 0,
        ;
        vstd::arithmetic::div_mod::lemma_div_is_ordered(dep * w * wp, dep * w * w, w);
        vstd::arithmetic::div_mod::lemma_div_by_multiple(dep * w, w);
        let x = (dep * w * wp) / w;
        vstd::arithmetic::div_mod::lemma_div_is_ordered(x, dep * w, w);
        vstd::arithmetic::div_mod::lemma_div_by_multiple(dep, w);
    }
}

/// A liquidation never settles more than is borrowed, never withdraws more
/// collateral than is deposited, and, once the borrow is above the close
/// amount, never settles more than was asked to be liquidated.
pub proof fn lemma_liquidation_bounded(
    r: Reserve,
    amount_to_liquidate: u64,
    obligation_borrowed_value: nat,
    liquidity: LendingObligationLiquidity,
    collateral: LendingObligationCollateral,
)
    requires
        liquidation_model(r, amount_to_liquidate, obligation_borrowed_value, liquidity, collateral) is Ok,
    ensures
        ({
            let (settle, repay, withdraw) = liquidation_model(
                r,
                amount_to_liquidate,
                obligation_borrowed_value,
                liquidity,
                collateral,
            )->Ok_0;
            &&& settle <= liquidity.borrowed_amount_wads@
            &&& withdraw <= collateral.deposited_amount
            &&& liquidity.borrowed_amount_wads@ >= LIQUIDATION_CLOSE_AMOUNT * wad()
                && amount_to_liquidate != u64::MAX ==> settle <= amount_to_liquidate * wad()
        }),
{
    let bonus = pct(r.config.liquidation_bonus as nat) + wad();
    let borrowed = liquidity.borrowed_amount_wads@;
    let max_amount = if amount_to_liquidate == u64::MAX {
        borrowed
    } else {
        min_nat((amount_to_liquidate * wad()) as nat, borrowed)
    };
    if borrowed < LIQUIDATION_CLOSE_AMOUNT * wad() {
        let lv = scaled_mul(liquidity.market_value@, bonus as nat, u192_bound())->0;
        lemma_split_bounded(max_amount, lv, collateral, true);
    } else {
        let m = max_liquidation_model(obligation_borrowed_value, liquidity)->Ok_0;
        let la = min_nat(m, max_amount);
        let lp = scaled_div(la, borrowed, u192_bound())->0;
        let v = scaled_mul(liquidity.market_value@, lp, u192_bound())->0;
        let lv = scaled_mul(v, bonus as nat, u192_bound())->0;
        lemma_split_bounded(la, lv, collateral, false);
    }
}

impl Reserve {
    /// Liquidate some or all of an unhealthy obligation.
    pub fn calculate_liquidation(
        &self,
        amount_to_liquidate: u64,
        obligation: &LendingObligation,
        liquidity: &LendingObligationLiquidity,
        collateral: &LendingObligationCollateral,
    ) -> (r: Result<CalculateLiquidationResult, LendingError>)
        ensures
            view_res(r) == liquidation_model(
                *self,
                amount_to_liquidate,
                obligation.borrowed_value@,
                *liquidity,
                *collateral,
            ),
    {
        let bonus_rate = Rate::from_percent(self.config.liquidation_bonus).try_add(Rate::one())?;
        let max_amount = if amount_to_liquidate == u64::MAX {
            liquidity.borrowed_amount_wads
        } else {
            Decimal::from_u64(amount_to_liquidate).min(liquidity.borrowed_amount_wads)
        };
        let settle_amount;
        let repay_amount;
        let withdraw_amount;
        if liquidity.borrowed_amount_wads.lt(&Decimal::from_u64(LIQUIDATION_CLOSE_AMOUNT)) {
            // settle_amount is fixed, calculate withdraw_amount and repay_amount
            settle_amount = liquidity.borrowed_amount_wads;
            let liquidation_value = liquidity.market_value.try_mul_rate(bonus_rate)?;
            if collateral.market_value.lt(&liquidation_value) {
                let repay_pct = collateral.market_value.try_div(liquidation_value)?;
                repay_amount = max_amount.try_mul(repay_pct)?.try_ceil_u64()?;
                withdraw_amount = collateral.deposited_amount;
            } else if collateral.market_value.eq(&liquidation_value) {
                repay_amount = max_amount.try_ceil_u64()?;
                withdraw_amount = collateral.deposited_amount;
            } else {
                let withdraw_pct = liquidation_value.try_div(collateral.market_value)?;
                repay_amount = max_amount.try_floor_u64()?;
                withdraw_amount = Decimal::from_u64(collateral.deposited_amount).try_mul(
                    withdraw_pct,
                )?.try_floor_u64()?;
            }
        } else {
            // calculate settle_amount and withdraw_amount, repay_amount is settle_amount rounded
            let liquidation_amount = obligation.max_liquidation_amount(liquidity)?.min(max_amount);
            let liquidation_pct = liquidation_amount.try_div(liquidity.borrowed_amount_wads)?;
            let liquidation_value = liquidity.market_value.try_mul(liquidation_pct)?.try_mul_rate(
                bonus_rate,
            )?;
            if collateral.market_value.lt(&liquidation_value) {
                let repay_pct = collateral.market_value.try_div(liquidation_value)?;
                settle_amount = liquidation_amount.try_mul(repay_pct)?;
                repay_amount = settle_amount.try_ceil_u64()?;
                withdraw_amount = collateral.deposited_amount;
            } else if collateral.market_value.eq(&liquidation_value) {
                settle_amount = liquidation_amount;
                repay_amount = settle_amount.try_ceil_u64()?;
                withdraw_amount = collateral.deposited_amount;
            } else {
                let withdraw_pct = liquidation_value.try_div(collateral.market_value)?;
                settle_amount = liquidation_amount;
                repay_amount = settle_amount.try_floor_u64()?;
                withdraw_amount = Decimal::from_u64(collateral.deposited_amount).try_mul(
                    withdraw_pct,
                )?.try_floor_u64()?;
            }
        }
        Ok(CalculateLiquidationResult { settle_amount, repay_amount, withdraw_amount })
    }
}


/// Collateral minted for `liquidity_amount` at exchange rate `rate`, rounded down.
pub open spec fn liquidity_to_collateral_model(rate: nat, liquidity_amount: u64) -> Result<
    u64,
    LendingError,
> {
    bind(lift(plain_mul(rate, liquidity_amount as nat, limb2())), |v: nat| lift(floor_to_u64(v)))
}

/// Liquidity paid for `collateral_amount` at exchange rate `rate`, rounded down.
pub open spec fn collateral_to_liquidity_model(rate: nat, collateral_amount: u64) -> Result<
    u64,
    LendingError,
> {
    bind(
        lift(scaled_div((collateral_amount * wad()) as nat, rate, u192_bound())),
        |d: nat| lift(floor_to_u64(d)),
    )
}

/// Converting liquidity to collateral and back never gives more liquidity
/// than went in: both conversions round down, so a round trip cannot create
/// value.
pub proof fn lemma_exchange_roundtrip_rounds_down(rate: nat, liquidity_amount: u64)
    requires
        liquidity_to_collateral_model(rate, liquidity_amount) is Ok,
        collateral_to_liquidity_model(
            rate,
            liquidity_to_collateral_model(rate, liquidity_amount)->Ok_0,
        ) is Ok,
    ensures
        collateral_to_liquidity_model(
            rate,
            liquidity_to_collateral_model(rate, liquidity_amount)->Ok_0,
        )->Ok_0 <= liquidity_amount,
{
    let x = liquidity_amount as int;
    let w = wad();
    let v = rate * x;
    let c = liquidity_to_collateral_model(rate, liquidity_amount)->Ok_0;
    assert(c == v / w);
    vstd::arithmetic::div_mod::lemma_fundamental_div_mod(v, w);
    vstd::arithmetic::div_mod::lemma_mod_pos_bound(v, w);
    assert(c * w <= v) by (nonlinear_arith)
        requires
            v == w * (v / w) + v % w,
            0 <= v % w,
            c == v / w,
    ;
    assert(rate != 0);
    assert((c * w) * w <= rate * (x * w)) by (nonlinear_arith)
        requires
            c * w <= v,
            v == rate * x,
            w > 0,
    ;
    let d = ((c * w) * w) / (rate as int);
    vstd::arithmetic::div_mod::lemma_div_is_ordered((c * w) * w, rate * (x * w), rate as int);
    vstd::arithmetic::div_mod::lemma_div_multiples_vanish(x * w, rate as int);
    assert(d <= x * w);
    vstd::arithmetic::div_mod::lemma_div_is_ordered(d, x * w, w);
    vstd::arithmetic::div_mod::lemma_div_by_multiple(x, w);
}

/// The reserve's collateral exchange rate.
pub open spec fn reserve_rate_model(r: Reserve) -> Result<nat, LendingError> {
    bind(
        total_supply_model(r.liquidity),
        |t: nat| exchange_rate_model(r.collateral.mint_total_supply, t),
    )
}

impl Reserve {
    /// Record deposited liquidity and return the amount of collateral tokens
    /// to mint.
    pub fn deposit_liquidity(&mut self, liquidity_amount: u64) -> (r: Result<u64, LendingError>)
        ensures
            final(self).version == old(self).version,
            final(self).last_update == old(self).last_update,
            final(self).lending_market == old(self).lending_market,
            final(self).borrow_authorizer == old(self).borrow_authorizer,
            final(self).config == old(self).config,
            match bind(
                reserve_rate_model(*old(self)),
                |rate: nat| liquidity_to_collateral_model(rate, liquidity_amount),
            ) {
                Err(e) => r == Err::<u64, LendingError>(e) && *final(self) == *old(self),
                Ok(c) => if old(self).liquidity.available_amount + liquidity_amount > u64::MAX {
                    r == Err::<u64, LendingError>(LendingError::MathOverflow) && *final(self)
                        == *old(self)
                } else {
                    &&& final(self).liquidity == (ReserveLiquidity {
                        available_amount: (old(self).liquidity.available_amount
                            + liquidity_amount) as u64,
                        ..old(self).liquidity
                    })
                    &&& if old(self).collateral.mint_total_supply + c > u64::MAX {
                        r == Err::<u64, LendingError>(LendingError::MathOverflow)
                            && final(self).collateral == old(self).collateral
                    } else {
                        r == Ok::<u64, LendingError>(c) && final(self).collateral == (
                        ReserveCollateral {
                            mint_total_supply: (old(self).collateral.mint_total_supply + c) as u64,
                            ..old(self).collateral
                        })
                    }
                },
            },
    {
        let collateral_amount = self.collateral_exchange_rate()?.liquidity_to_collateral(
            liquidity_amount,
        )?;
        self.liquidity.deposit(liquidity_amount)?;
        self.collateral.mint(collateral_amount)?;
        Ok(collateral_amount)
    }

    /// Record redeemed collateral and return the amount of liquidity to
    /// withdraw.
    pub fn redeem_collateral(&mut self, collateral_amount: u64) -> (r: Result<u64, LendingError>)
        ensures
            final(self).version == old(self).version,
            final(self).last_update == old(self).last_update,
            final(self).lending_market == old(self).lending_market,
            final(self).borrow_authorizer == old(self).borrow_authorizer,
            final(self).config == old(self).config,
            match bind(
                reserve_rate_model(*old(self)),
                |rate: nat| collateral_to_liquidity_model(rate, collateral_amount),
            ) {
                Err(e) => r == Err::<u64, LendingError>(e) && *final(self) == *old(self),
                Ok(l) => if collateral_amount > old(self).collateral.mint_total_supply {
                    r == Err::<u64, LendingError>(LendingError::MathOverflow) && *final(self)
                        == *old(self)
                } else {
                    &&& final(self).collateral == (ReserveCollateral {
                        mint_total_supply: (old(self).collateral.mint_total_supply
                            - collateral_amount) as u64,
                        ..old(self).collateral
                    })
                    &&& if l > old(self).liquidity.available_amount {
                        r == Err::<u64, LendingError>(LendingError::InsufficientLiquidity)
                            && final(self).liquidity == old(self).liquidity
                    } else {
                        r == Ok::<u64, LendingError>(l) && final(self).liquidity == (
                        ReserveLiquidity {
                            available_amount: (old(self).liquidity.available_amount - l) as u64,
                            ..old(self).liquidity
                        })
                    }
                },
            },
    {
        let collateral_exchange_rate = self.collateral_exchange_rate()?;
        let liquidity_amount = collateral_exchange_rate.collateral_to_liquidity(collateral_amount)?;
        self.collateral.burn(collateral_amount)?;
        self.liquidity.withdraw(liquidity_amount)?;
        Ok(liquidity_amount)
    }

    /// Withdraw platform fees.
    pub fn withdraw_platform_fees(&mut self) -> (r: Result<u64, LendingError>)
        ensures
            final(self).version == old(self).version,
            final(self).last_update == old(self).last_update,
            final(self).lending_market == old(self).lending_market,
            final(self).borrow_authorizer == old(self).borrow_authorizer,
            final(self).collateral == old(self).collateral,
            final(self).config == old(self).config,
            same_liquidity_setup(final(self).liquidity, old(self).liquidity),
            final(self).liquidity.borrowed_amount_wads == old(self).liquidity.borrowed_amount_wads,
            ({
                let a = old(self).liquidity.available_amount;
                let p = old(self).liquidity.platform_amount_wads@;
                &&& a * wad() < p ==> r == Ok::<u64, LendingError>(0) && *final(self) == *old(self)
                &&& a * wad() == p ==> r == Ok::<u64, LendingError>(a)
                    && final(self).liquidity.available_amount == 0
                    && final(self).liquidity.platform_amount_wads@ == 0
                &&& a * wad() > p ==> r == Ok::<u64, LendingError>((p as int / wad()) as u64)
                    && final(self).liquidity.available_amount == a - p as int / wad()
                    && final(self).liquidity.platform_amount_wads@ == p - (p as int / wad()) * wad()
            }),
    {
        Ok(self.liquidity.withdraw_platform_fees())
    }

    /// Update the borrow rate and accrue interest over the slots elapsed
    /// since the last update.
    pub fn accrue_interest(&mut self, current_slot: u64) -> (r: Result<(), LendingError>)
        ensures
            final(self).version == old(self).version,
            final(self).last_update == old(self).last_update,
            final(self).lending_market == old(self).lending_market,
            final(self).borrow_authorizer == old(self).borrow_authorizer,
            final(self).collateral == old(self).collateral,
            final(self).config == old(self).config,
            current_slot < old(self).last_update.slot ==> r == Err::<(), LendingError>(
                LendingError::MathOverflow,
            ) && *final(self) == *old(self),
            current_slot == old(self).last_update.slot ==> r is Ok && *final(self) == *old(self),
            current_slot > old(self).last_update.slot ==> match bind(
                utilization_model(old(self).liquidity),
                |u: nat| borrow_rate_model(u, old(self).config),
            ) {
                Err(e) => r == Err::<(), LendingError>(e) && *final(self) == *old(self),
                Ok(rate) => compound_outcome(
                    old(self).liquidity,
                    final(self).liquidity,
                    rate,
                    (current_slot - old(self).last_update.slot) as nat,
                    r,
                ),
            },
    {
        let slots_elapsed = self.last_update.slots_elapsed(current_slot)?;
        if slots_elapsed > 0 {
            let current_borrow_rate = self.current_borrow_rate()?;
            self.liquidity.compound_interest(current_borrow_rate, slots_elapsed)?;
        }
        Ok(())
    }
}

} // verus!
