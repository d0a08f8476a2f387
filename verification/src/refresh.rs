//! Off-chain refresh of an obligation: re-price its deposits and borrows from
//! the reserves they belong to and recompute its values.
use vstd::prelude::*;
use crate::decimal::Decimal;
use crate::error::LendingError;
use crate::lending_obligation::{
    LendingObligation, LendingObligationCollateral, LendingObligationLiquidity,
    same_obligation_header,
};
use crate::math::{bind, lift, percent_scaler, scaled_div, scaled_mul, view_res, wad};
use crate::pubkey::Pubkey;
use crate::rate::Rate;
use crate::reserve::{Reserve, ReserveConfig, checked_pow10, pow10_model, reserve_rate_model};
use crate::uint::{limb2, u192_bound};

verus! {

/// Index of the first reserve stored under address `key`, if any.
pub open spec fn reserve_index(reserves: Seq<(Pubkey, Reserve)>, key: Seq<u8>) -> Option<int> {
    if exists|i: int| 0 <= i < reserves.len() && (#[trigger] reserves[i]).0@ == key {
        Some(
            choose|i: int|
                0 <= i < reserves.len() && reserves[i].0@ == key && forall|j: int|
                    0 <= j < i ==> (#[trigger] reserves[j]).0@ != key,
        )
    } else {
        None
    }
}

/// The reserve stored under `key`; a missing one is `InvalidAccountData`.
pub open spec fn found_reserve(reserves: Seq<(Pubkey, Reserve)>, key: Seq<u8>) -> Result<
    Reserve,
    LendingError,
> {
    match reserve_index(reserves, key) {
        Some(k) => Ok(reserves[k].1),
        None => Err(LendingError::InvalidAccountData),
    }
}

/// Sum of two decimals, when it stays in range.
pub open spec fn checked_sum(a: nat, b: nat) -> Option<nat> {
    if a + b < u192_bound() {
        Some(a + b)
    } else {
        None
    }
}

/// Quote value of `amount` tokens priced at `price`, for a token with
/// `decimals` as its unit: `amount * price / decimals`, rounded down.
pub open spec fn quote_value_model(amount: nat, price: nat, decimals: u64) -> Result<
    nat,
    LendingError,
> {
    bind(
        lift(scaled_mul(amount, price, u192_bound())),
        |v: nat|
            lift(
                if decimals != 0 {
                    Some((v as int / decimals as int) as nat)
                } else {
                    None
                },
            ),
    )
}

/// Market value of `amount` collateral tokens of `reserve`: converted to
/// liquidity at the reserve's exchange rate, then priced.
pub open spec fn collateral_value_model(reserve: Reserve, amount: u64) -> Result<nat, LendingError> {
    bind(
        pow10_model(reserve.liquidity.mint_decimals),
        |decimals: u64|
            bind(
                reserve_rate_model(reserve),
                |rate: nat|
                    bind(
                        lift(scaled_div((amount * wad()) as nat, rate, u192_bound())),
                        |liquidity: nat|
                            quote_value_model(liquidity, reserve.liquidity.market_price@, decimals),
                    ),
            ),
    )
}

/// Market value of `borrowed` liquidity of `reserve`.
pub open spec fn liquidity_value_model(reserve: Reserve, borrowed: nat) -> Result<nat, LendingError> {
    bind(
        pow10_model(reserve.liquidity.mint_decimals),
        |decimals: u64| quote_value_model(borrowed, reserve.liquidity.market_price@, decimals),
    )
}

/// A borrow's market value is the amount borrowed times the market price
/// over 10 to the mint's decimals, rounded down once: the amount is counted
/// in base units, 10^decimals of which make one token worth the price.
pub proof fn lemma_liquidity_value_in_tokens(reserve: Reserve, borrowed: nat)
    requires
        liquidity_value_model(reserve, borrowed) is Ok,
    ensures
        pow10_model(reserve.liquidity.mint_decimals) is Ok,
        liquidity_value_model(reserve, borrowed)->Ok_0 as int == (borrowed
            * reserve.liquidity.market_price@) as int / (wad() * pow10_model(
            reserve.liquidity.mint_decimals,
        )->Ok_0 as int),
{
    let d = pow10_model(reserve.liquidity.mint_decimals)->Ok_0 as int;
    let x = (borrowed * reserve.liquidity.market_price@) as int;
    vstd::arithmetic::power::lemma_pow_positive(10, reserve.liquidity.mint_decimals as nat);
    assert(x >= 0) by (nonlinear_arith)
        requires
            x == borrowed * reserve.liquidity.market_price@,
    ;
    vstd::arithmetic::div_mod::lemma_div_denominator(x, wad(), d);
}

/// A deposit's market value is its collateral converted to liquidity at the
/// reserve's exchange rate (rounded down), times the market price, over 10
/// to the mint's decimals, rounded down once.
pub proof fn lemma_collateral_value_in_tokens(reserve: Reserve, amount: u64)
    requires
        collateral_value_model(reserve, amount) is Ok,
    ensures
        pow10_model(reserve.liquidity.mint_decimals) is Ok,
        reserve_rate_model(reserve) is Ok,
        reserve_rate_model(reserve)->Ok_0 > 0,
        collateral_value_model(reserve, amount)->Ok_0 as int == ((amount * wad() * wad()) as int
            / reserve_rate_model(reserve)->Ok_0 as int) * reserve.liquidity.market_price@ / (wad()
            * pow10_model(reserve.liquidity.mint_decimals)->Ok_0 as int),
{
    let d = pow10_model(reserve.liquidity.mint_decimals)->Ok_0 as int;
    let rate = reserve_rate_model(reserve)->Ok_0 as int;
    let liq = (amount * wad() * wad()) as int / rate;
    let x = liq * reserve.liquidity.market_price@;
    vstd::arithmetic::power::lemma_pow_positive(10, reserve.liquidity.mint_decimals as nat);
    assert(amount * wad() * wad() >= 0) by (nonlinear_arith);
    vstd::arithmetic::div_mod::lemma_div_pos_is_pos((amount * wad() * wad()) as int, rate);
    assert(x >= 0) by (nonlinear_arith)
        requires
            liq >= 0,
            x == liq * reserve.liquidity.market_price@,
    ;
    vstd::arithmetic::div_mod::lemma_div_denominator(x, wad(), d);
}

/// Whole tokens borrowed are worth the number of tokens times the market
/// price, whatever the mint's decimals.
pub proof fn lemma_whole_tokens_worth_their_price(reserve: Reserve, tokens: nat)
    requires
        pow10_model(reserve.liquidity.mint_decimals) is Ok,
        tokens * pow10_model(reserve.liquidity.mint_decimals)->Ok_0 * wad() * reserve.liquidity.market_price@
            < u192_bound(),
    ensures
        liquidity_value_model(
            reserve,
            (tokens * pow10_model(reserve.liquidity.mint_decimals)->Ok_0 * wad()) as nat,
        ) == Ok::<nat, LendingError>(tokens * reserve.liquidity.market_price@),
{
    let d = pow10_model(reserve.liquidity.mint_decimals)->Ok_0 as int;
    let p = reserve.liquidity.market_price@ as int;
    let w = wad();
    let b = tokens * d * w;
    vstd::arithmetic::power::lemma_pow_positive(10, reserve.liquidity.mint_decimals as nat);
    assert(b * p == (tokens * p * d) * w) by (nonlinear_arith)
        requires
            b == tokens * d * w,
    ;
    assert(tokens * p * d >= 0) by (nonlinear_arith)
        requires
            tokens >= 0,
            p >= 0,
            d >= 0,
    ;
    vstd::arithmetic::div_mod::lemma_div_by_multiple(tokens * p * d, w);
    assert(tokens * p * d == (tokens * p) * d) by (nonlinear_arith);
    assert(tokens * p >= 0) by (nonlinear_arith)
        requires
            tokens >= 0,
            p >= 0,
    ;
    vstd::arithmetic::div_mod::lemma_div_by_multiple(tokens * p, d);
}

/// The value of a borrow does not change when the same quantity is counted
/// with one more decimal: ten times the base units of a mint with one more
/// decimal, at the same price, are worth the same.
pub proof fn lemma_liquidity_value_ignores_decimals(r1: Reserve, r2: Reserve, borrowed: nat)
    requires
        r2.liquidity.market_price == r1.liquidity.market_price,
        r2.liquidity.mint_decimals == r1.liquidity.mint_decimals + 1,
        pow10_model(r2.liquidity.mint_decimals) is Ok,
        10 * borrowed * r1.liquidity.market_price@ < u192_bound(),
    ensures
        liquidity_value_model(r2, 10 * borrowed) == liquidity_value_model(r1, borrowed),
        liquidity_value_model(r1, borrowed) is Ok,
{
    let e = r1.liquidity.mint_decimals as nat;
    let p = r1.liquidity.market_price@ as int;
    let w = wad();
    vstd::arithmetic::power::lemma_pow_positive(10, e);
    vstd::arithmetic::power::lemma_pow_positive(10, e + 1);
    vstd::arithmetic::power::lemma_pow_adds(10, e, 1);
    vstd::arithmetic::power::lemma_pow1(10);
    let d1 = vstd::arithmetic::power::pow(10, e);
    let d2 = vstd::arithmetic::power::pow(10, e + 1);
    assert(d2 == d1 * 10);
    assert(borrowed * p <= 10 * borrowed * p) by (nonlinear_arith)
        requires
            borrowed >= 0,
            p >= 0,
    ;
    assert(pow10_model(r1.liquidity.mint_decimals) == Ok::<u64, LendingError>(d1 as u64));
    lemma_liquidity_value_in_tokens(r1, borrowed);
    lemma_liquidity_value_in_tokens(r2, 10 * borrowed);
    assert((10 * borrowed) * p == 10 * (borrowed * p)) by (nonlinear_arith);
    assert(w * d2 == 10 * (w * d1)) by (nonlinear_arith)
        requires
            d2 == d1 * 10,
    ;
    assert(borrowed * p >= 0) by (nonlinear_arith)
        requires
            p >= 0,
    ;
    assert(w * d1 > 0) by (nonlinear_arith)
        requires
            w > 0,
            d1 > 0,
    ;
    vstd::arithmetic::div_mod::lemma_div_denominator(10 * (borrowed * p), 10, w * d1);
    vstd::arithmetic::div_mod::lemma_div_multiples_vanish(borrowed * p, 10);
}

/// The deposited, allowed-borrow and unhealthy-borrow totals after adding a
/// deposit of market value `mv` in a reserve with configuration `c`.
pub open spec fn add_deposit_totals(t: (nat, nat, nat), mv: nat, c: ReserveConfig) -> Result<
    (nat, nat, nat),
    LendingError,
> {
    bind(
        lift(checked_sum(t.0, mv)),
        |d: nat|
            bind(
                lift(scaled_mul(mv, (c.loan_to_value_ratio * percent_scaler()) as nat, u192_bound())),
                |a: nat|
                    bind(
                        lift(checked_sum(t.1, a)),
                        |a2: nat|
                            bind(
                                lift(
                                    scaled_mul(
                                        mv,
                                        (c.liquidation_threshold * percent_scaler()) as nat,
                                        u192_bound(),
                                    ),
                                ),
                                |u: nat|
                                    bind(
                                        lift(checked_sum(t.2, u)),
                                        |u2: nat| Ok::<(nat, nat, nat), LendingError>((d, a2, u2)),
                                    ),
                            ),
                    ),
            ),
    )
}

/// The market value the refresh gives deposit `c`.
pub open spec fn deposit_value(reserves: Seq<(Pubkey, Reserve)>, c: LendingObligationCollateral) -> Result<
    nat,
    LendingError,
> {
    bind(
        found_reserve(reserves, c.deposit_reserve@),
        |r: Reserve| collateral_value_model(r, c.deposited_amount),
    )
}

/// The totals after adding deposit `c` to totals `t`, or the failure.
pub open spec fn deposit_step(reserves: Seq<(Pubkey, Reserve)>, t: (nat, nat, nat), c: LendingObligationCollateral) -> Result<
    (nat, nat, nat),
    LendingError,
> {
    bind(
        found_reserve(reserves, c.deposit_reserve@),
        |r: Reserve|
            bind(
                collateral_value_model(r, c.deposited_amount),
                |mv: nat| add_deposit_totals(t, mv, r.config),
            ),
    )
}

/// The totals after refreshing the first `n` deposits, or the first failure.
#[verifier::opaque]
pub open spec fn deposits_fold(
    reserves: Seq<(Pubkey, Reserve)>,
    deposits: Seq<LendingObligationCollateral>,
    n: nat,
) -> Result<(nat, nat, nat), LendingError>
    decreases n,
{
    if n == 0 {
        Ok((0, 0, 0))
    } else {
        bind(
            deposits_fold(reserves, deposits, (n - 1) as nat),
            |t: (nat, nat, nat)| deposit_step(reserves, t, deposits[n - 1]),
        )
    }
}

/// The borrowed amount after accruing interest up to cumulative rate `rate`.
pub open spec fn accrue_model(l: LendingObligationLiquidity, rate: nat) -> Result<nat, LendingError> {
    if rate < l.cumulative_borrow_rate_wads@ {
        Err(LendingError::NegativeInterestRate)
    } else if rate == l.cumulative_borrow_rate_wads@ {
        Ok(l.borrowed_amount_wads@)
    } else {
        bind(
            lift(scaled_div(rate, l.cumulative_borrow_rate_wads@, u192_bound())),
            |q: nat|
                if q < limb2() {
                    lift(scaled_mul(l.borrowed_amount_wads@, q, u192_bound()))
                } else {
                    Err(LendingError::MathOverflow)
                },
        )
    }
}

/// The borrowed value after adding borrow `l` to borrowed value `bv`, or the failure.
pub open spec fn borrow_step(reserves: Seq<(Pubkey, Reserve)>, bv: nat, l: LendingObligationLiquidity) -> Result<
    nat,
    LendingError,
> {
    bind(
        found_reserve(reserves, l.borrow_reserve@),
        |r: Reserve|
            bind(
                accrue_model(l, r.liquidity.cumulative_borrow_rate_wads@),
                |b: nat| bind(liquidity_value_model(r, b), |mv: nat| lift(checked_sum(bv, mv))),
            ),
    )
}

/// The borrowed value after refreshing the first `n` borrows, or the first failure.
#[verifier::opaque]
pub open spec fn borrows_fold(
    reserves: Seq<(Pubkey, Reserve)>,
    borrows: Seq<LendingObligationLiquidity>,
    n: nat,
) -> Result<nat, LendingError>
    decreases n,
{
    if n == 0 {
        Ok(0)
    } else {
        bind(
            borrows_fold(reserves, borrows, (n - 1) as nat),
            |bv: nat| borrow_step(reserves, bv, borrows[n - 1]),
        )
    }
}

/// The deposits fold starts from zero totals and takes one deposit at a time.
proof fn lemma_deposits_fold_step(
    reserves: Seq<(Pubkey, Reserve)>,
    deposits: Seq<LendingObligationCollateral>,
    n: nat,
)
    ensures
        deposits_fold(reserves, deposits, 0) == Ok::<(nat, nat, nat), LendingError>((0, 0, 0)),
        deposits_fold(reserves, deposits, n) matches Ok(t) ==> deposits_fold(reserves, deposits, n + 1)
            == deposit_step(reserves, t, deposits[n as int]),
        deposits_fold(reserves, deposits, n) is Err ==> deposits_fold(reserves, deposits, n + 1)
            == deposits_fold(reserves, deposits, n),
{
    reveal_with_fuel(deposits_fold, 2);
}

/// The borrows fold starts from zero and takes one borrow at a time.
proof fn lemma_borrows_fold_step(
    reserves: Seq<(Pubkey, Reserve)>,
    borrows: Seq<LendingObligationLiquidity>,
    n: nat,
)
    ensures
        borrows_fold(reserves, borrows, 0) == Ok::<nat, LendingError>(0),
        borrows_fold(reserves, borrows, n) matches Ok(bv) ==> borrows_fold(reserves, borrows, n + 1)
            == borrow_step(reserves, bv, borrows[n as int]),
        borrows_fold(reserves, borrows, n) is Err ==> borrows_fold(reserves, borrows, n + 1)
            == borrows_fold(reserves, borrows, n),
{
    reveal_with_fuel(borrows_fold, 2);
}

/// Accruing interest never shrinks a borrow: when it succeeds, the amount
/// borrowed is at least what it was.
pub proof fn lemma_accrue_never_shrinks(l: LendingObligationLiquidity, rate: nat)
    requires
        accrue_model(l, rate) is Ok,
    ensures
        accrue_model(l, rate)->Ok_0 >= l.borrowed_amount_wads@,
{
    let c = l.cumulative_borrow_rate_wads@;
    let b = l.borrowed_amount_wads@;
    let w = wad();
    if rate > c {
        let q = (rate as int * w / c as int) as nat;
        assert(rate as int * w >= c as int * w) by (nonlinear_arith)
            requires
                rate > c,
                w > 0,
        ;
        vstd::arithmetic::div_mod::lemma_div_is_ordered(c as int * w, rate as int * w, c as int);
        vstd::arithmetic::div_mod::lemma_div_by_multiple(w, c as int);
        assert((c as int * w) / (c as int) == w) by (nonlinear_arith)
            requires
                c > 0,
                (w * c as int) / (c as int) == w,
        ;
        assert(q >= w);
        assert(b * q >= b * w) by (nonlinear_arith)
            requires
                q >= w,
        ;
        vstd::arithmetic::div_mod::lemma_div_is_ordered(b * w, (b * q) as int, w);
        vstd::arithmetic::div_mod::lemma_div_by_multiple(b as int, w);
    }
}

/// Once a fold has failed, it fails with that error from there on.
proof fn lemma_deposits_fold_err(
    reserves: Seq<(Pubkey, Reserve)>,
    deposits: Seq<LendingObligationCollateral>,
    n: nat,
    m: nat,
)
    requires
        deposits_fold(reserves, deposits, n) is Err,
        n <= m,
    ensures
        deposits_fold(reserves, deposits, m) == deposits_fold(reserves, deposits, n),
    decreases m - n,
{
    if n < m {
        lemma_deposits_fold_err(reserves, deposits, n, (m - 1) as nat);
        lemma_deposits_fold_step(reserves, deposits, (m - 1) as nat);
    }
}

proof fn lemma_borrows_fold_err(
    reserves: Seq<(Pubkey, Reserve)>,
    borrows: Seq<LendingObligationLiquidity>,
    n: nat,
    m: nat,
)
    requires
        borrows_fold(reserves, borrows, n) is Err,
        n <= m,
    ensures
        borrows_fold(reserves, borrows, m) == borrows_fold(reserves, borrows, n),
    decreases m - n,
{
    if n < m {
        lemma_borrows_fold_err(reserves, borrows, n, (m - 1) as nat);
        lemma_borrows_fold_step(reserves, borrows, (m - 1) as nat);
    }
}

/// Position of the reserve stored under `key`.
fn find_reserve(reserves: &[(Pubkey, Reserve)], key: &Pubkey) -> (r: Option<usize>)
    ensures
        r matches Some(k) ==> reserve_index(reserves@, key@) == Some(k as int) && k
            < reserves@.len(),
        r is None ==> reserve_index(reserves@, key@) is None,
{
    let mut i: usize = 0;
    while i < reserves.len()
        invariant
            0 <= i <= reserves@.len(),
            forall|j: int| 0 <= j < i ==> (#[trigger] reserves@[j]).0@ != key@,
        decreases reserves@.len() - i,
    {
        if reserves[i].0.same(key) {
            return Some(i);
        }
        i = i + 1;
    }
    None
}

/// Market value of `amount` collateral tokens of `reserve`.
fn collateral_market_value(reserve: &Reserve, amount: u64) -> (r: Result<Decimal, LendingError>)
    ensures
        view_res(r) == collateral_value_model(*reserve, amount),
{
    let decimals = checked_pow10(reserve.liquidity.mint_decimals)?;
    let rate = reserve.collateral_exchange_rate()?;
    let liquidity = rate.decimal_collateral_to_liquidity(Decimal::from_u64(amount))?;
    let priced = liquidity.try_mul(reserve.liquidity.market_price)?;
    priced.try_div_u64(decimals)
}

/// Market value of `borrowed` liquidity of `reserve`.
fn liquidity_market_value(reserve: &Reserve, borrowed: Decimal) -> (r: Result<Decimal, LendingError>)
    ensures
        view_res(r) == liquidity_value_model(*reserve, borrowed@),
{
    let decimals = checked_pow10(reserve.liquidity.mint_decimals)?;
    let priced = borrowed.try_mul(reserve.liquidity.market_price)?;
    priced.try_div_u64(decimals)
}

/// The views of three decimals.
pub open spec fn totals_view(r: Result<(Decimal, Decimal, Decimal), LendingError>) -> Result<
    (nat, nat, nat),
    LendingError,
> {
    match r {
        Ok(t) => Ok((t.0@, t.1@, t.2@)),
        Err(e) => Err(e),
    }
}

/// Add a deposit of market value `mv` to the three totals.
fn add_deposit(
    deposited: Decimal,
    allowed: Decimal,
    unhealthy: Decimal,
    mv: Decimal,
    config: &ReserveConfig,
) -> (r: Result<(Decimal, Decimal, Decimal), LendingError>)
    ensures
        totals_view(r) == add_deposit_totals((deposited@, allowed@, unhealthy@), mv@, *config),
{
    let loan_to_value_rate = Rate::from_percent(config.loan_to_value_ratio);
    let liquidation_threshold_rate = Rate::from_percent(config.liquidation_threshold);
    let d = deposited.try_add(mv)?;
    let a = allowed.try_add(mv.try_mul_rate(loan_to_value_rate)?)?;
    let u = unhealthy.try_add(mv.try_mul_rate(liquidation_threshold_rate)?)?;
    Ok((d, a, u))
}


/// Deposit `f` is deposit `c` after its refresh step: same reserve and amount,
/// its new market value when it was priced, else its old one.
pub open spec fn deposit_after_step(
    reserves: Seq<(Pubkey, Reserve)>,
    c: LendingObligationCollateral,
    f: LendingObligationCollateral,
) -> bool {
    &&& f.deposit_reserve == c.deposit_reserve
    &&& f.deposited_amount == c.deposited_amount
    &&& deposit_value(reserves, c) is Ok ==> deposit_value(reserves, c) == Ok::<nat, LendingError>(
        f.market_value@,
    )
    &&& deposit_value(reserves, c) is Err ==> f.market_value == c.market_value
}

/// Borrow `f` is borrow `l` after its refresh step: once its reserve was found
/// and its interest accrued, the accrued amount at the reserve's cumulative
/// rate and its new market value when it was priced; otherwise unchanged.
pub open spec fn borrow_after_step(
    reserves: Seq<(Pubkey, Reserve)>,
    l: LendingObligationLiquidity,
    f: LendingObligationLiquidity,
) -> bool {
    let found = found_reserve(reserves, l.borrow_reserve@);
    let accrued = bind(found, |r: Reserve| accrue_model(l, r.liquidity.cumulative_borrow_rate_wads@));
    if accrued is Ok {
        let r = found->Ok_0;
        let b = accrued->Ok_0;
        &&& f.borrow_reserve == l.borrow_reserve
        &&& f.borrowed_amount_wads@ == b
        &&& f.cumulative_borrow_rate_wads@ == r.liquidity.cumulative_borrow_rate_wads@
        &&& liquidity_value_model(r, b) is Ok ==> liquidity_value_model(r, b) == Ok::<
            nat,
            LendingError,
        >(f.market_value@)
        &&& liquidity_value_model(r, b) is Err ==> f.market_value == l.market_value
    } else {
        f == l
    }
}

/// Refresh deposit `i` and add it to the totals.
fn refresh_deposit(
    obligation_info: &mut LendingObligation,
    reserves: &[(Pubkey, Reserve)],
    i: usize,
    totals: (Decimal, Decimal, Decimal),
) -> (r: Result<(Decimal, Decimal, Decimal), LendingError>)
    requires
        i < old(obligation_info).deposits@.len(),
    ensures
        same_obligation_header(*final(obligation_info), *old(obligation_info)),
        final(obligation_info).borrows@ == old(obligation_info).borrows@,
        final(obligation_info).deposits@.len() == old(obligation_info).deposits@.len(),
        forall|i2: int|
            0 <= i2 < old(obligation_info).deposits@.len() && i2 != i ==> #[trigger] final(obligation_info).deposits@[i2] == old(obligation_info).deposits@[i2],
        deposit_after_step(
            reserves@,
            old(obligation_info).deposits@[i as int],
            final(obligation_info).deposits@[i as int],
        ),
        totals_view(r) == deposit_step(
            reserves@,
            (totals.0@, totals.1@, totals.2@),
            old(obligation_info).deposits@[i as int],
        ),
{
    let mut collateral = obligation_info.deposits[i];
    let k = match find_reserve(reserves, &collateral.deposit_reserve) {
        Some(k) => k,
        None => {
            return Err(LendingError::InvalidAccountData);
        },
    };
    let deposit_reserve = &reserves[k].1;
    let market_value = collateral_market_value(deposit_reserve, collateral.deposited_amount)?;
    collateral.market_value = market_value;
    obligation_info.deposits.set(i, collateral);
    add_deposit(totals.0, totals.1, totals.2, market_value, &deposit_reserve.config)
}

/// Refresh borrow `j` and add it to the borrowed value.
fn refresh_borrow(
    obligation_info: &mut LendingObligation,
    reserves: &[(Pubkey, Reserve)],
    j: usize,
    borrowed_value: Decimal,
) -> (r: Result<Decimal, LendingError>)
    requires
        j < old(obligation_info).borrows@.len(),
    ensures
        same_obligation_header(*final(obligation_info), *old(obligation_info)),
        final(obligation_info).deposits@ == old(obligation_info).deposits@,
        final(obligation_info).borrows@.len() == old(obligation_info).borrows@.len(),
        forall|j2: int|
            0 <= j2 < old(obligation_info).borrows@.len() && j2 != j ==> #[trigger] final(obligation_info).borrows@[j2] == old(obligation_info).borrows@[j2],
        borrow_after_step(
            reserves@,
            old(obligation_info).borrows@[j as int],
            final(obligation_info).borrows@[j as int],
        ),
        view_res(r) == borrow_step(reserves@, borrowed_value@, old(obligation_info).borrows@[j as int]),
{
    let mut liquidity = obligation_info.borrows[j];
    let k = match find_reserve(reserves, &liquidity.borrow_reserve) {
        Some(k) => k,
        None => {
            return Err(LendingError::InvalidAccountData);
        },
    };
    let borrow_reserve = &reserves[k].1;
    liquidity.accrue_interest(borrow_reserve.liquidity.cumulative_borrow_rate_wads)?;
    let market_value = match liquidity_market_value(borrow_reserve, liquidity.borrowed_amount_wads) {
        Ok(v) => v,
        Err(e) => {
            obligation_info.borrows.set(j, liquidity);
            return Err(e);
        },
    };
    liquidity.market_value = market_value;
    obligation_info.borrows.set(j, liquidity);
    borrowed_value.try_add(market_value)
}

/// Deposit `f` is what refreshing makes of deposit `i` of `deposits`: the
/// same reserve and amount, and its new market value when the refresh got
/// that far and priced it; otherwise its market value is unchanged.
pub open spec fn refreshed_deposit(
    reserves: Seq<(Pubkey, Reserve)>,
    deposits: Seq<LendingObligationCollateral>,
    i: int,
    f: LendingObligationCollateral,
) -> bool {
    let c = deposits[i];
    let priced = deposits_fold(reserves, deposits, i as nat) is Ok && deposit_value(reserves, c) is Ok;
    &&& f.deposit_reserve == c.deposit_reserve
    &&& f.deposited_amount == c.deposited_amount
    &&& priced ==> deposit_value(reserves, c) == Ok::<nat, LendingError>(f.market_value@)
    &&& !priced ==> f.market_value == c.market_value
}

/// Borrow `f` is what refreshing makes of borrow `j` of `borrows`, when the
/// deposits were all refreshed (`reached`): once the refresh got that far and
/// found its reserve and accrued its interest, the accrued amount at the
/// reserve's cumulative rate, and the new market value when it was priced;
/// otherwise unchanged.
pub open spec fn refreshed_borrow(
    reserves: Seq<(Pubkey, Reserve)>,
    reached: bool,
    borrows: Seq<LendingObligationLiquidity>,
    j: int,
    f: LendingObligationLiquidity,
) -> bool {
    let l = borrows[j];
    let found = found_reserve(reserves, l.borrow_reserve@);
    let accrued = bind(found, |r: Reserve| accrue_model(l, r.liquidity.cumulative_borrow_rate_wads@));
    if reached && borrows_fold(reserves, borrows, j as nat) is Ok && accrued is Ok {
        let r = found->Ok_0;
        let b = accrued->Ok_0;
        &&& f.borrow_reserve == l.borrow_reserve
        &&& f.borrowed_amount_wads@ == b
        &&& f.cumulative_borrow_rate_wads@ == r.liquidity.cumulative_borrow_rate_wads@
        &&& liquidity_value_model(r, b) is Ok ==> liquidity_value_model(r, b) == Ok::<
            nat,
            LendingError,
        >(f.market_value@)
        &&& liquidity_value_model(r, b) is Err ==> f.market_value == l.market_value
    } else {
        f == l
    }
}

/// The four values of two obligations agree.
pub open spec fn same_obligation_values(a: LendingObligation, b: LendingObligation) -> bool {
    &&& a.deposited_value == b.deposited_value
    &&& a.borrowed_value == b.borrowed_value
    &&& a.allowed_borrow_value == b.allowed_borrow_value
    &&& a.unhealthy_borrow_value == b.unhealthy_borrow_value
}

/// Everything but the values of two obligations agrees.
pub open spec fn same_obligation_keys(a: LendingObligation, b: LendingObligation) -> bool {
    &&& a.version == b.version
    &&& a.last_update == b.last_update
    &&& a.lending_market == b.lending_market
    &&& a.owner == b.owner
}


/// A refresh stopped by a failure at deposit `i` leaves every deposit as the
/// contract of the refresh says, the borrows untouched, and the whole fold
/// failing as it failed at `i`.
proof fn lemma_deposits_stop(
    rs: Seq<(Pubkey, Reserve)>,
    o: LendingObligation,
    f: LendingObligation,
    i: int,
)
    requires
        0 <= i < o.deposits@.len(),
        f.deposits@.len() == o.deposits@.len(),
        f.borrows@ == o.borrows@,
        deposits_fold(rs, o.deposits@, i as nat) is Ok,
        deposits_fold(rs, o.deposits@, (i + 1) as nat) is Err,
        forall|i2: int|
            0 <= i2 < i ==> refreshed_deposit(rs, o.deposits@, i2, #[trigger] f.deposits@[i2]),
        refreshed_deposit(rs, o.deposits@, i, f.deposits@[i]),
        forall|i2: int| i < i2 < o.deposits@.len() ==> #[trigger] f.deposits@[i2] == o.deposits@[i2],
    ensures
        forall|i2: int|
            0 <= i2 < o.deposits@.len() ==> refreshed_deposit(
                rs,
                o.deposits@,
                i2,
                #[trigger] f.deposits@[i2],
            ),
        forall|j: int|
            0 <= j < o.borrows@.len() ==> refreshed_borrow(
                rs,
                deposits_fold(rs, o.deposits@, o.deposits@.len()) is Ok,
                o.borrows@,
                j,
                #[trigger] f.borrows@[j],
            ),
        deposits_fold(rs, o.deposits@, o.deposits@.len()) == deposits_fold(
            rs,
            o.deposits@,
            (i + 1) as nat,
        ),
{
    lemma_deposits_fold_err(rs, o.deposits@, (i + 1) as nat, o.deposits@.len());
    assert forall|i2: int| 0 <= i2 < o.deposits@.len() implies refreshed_deposit(
        rs,
        o.deposits@,
        i2,
        #[trigger] f.deposits@[i2],
    ) by {
        if i2 > i {
            lemma_deposits_fold_err(rs, o.deposits@, (i + 1) as nat, i2 as nat);
        }
    }
}

/// A refresh stopped by a failure at borrow `j` leaves every borrow as the
/// contract of the refresh says, and the whole fold failing as it failed at `j`.
proof fn lemma_borrows_stop(
    rs: Seq<(Pubkey, Reserve)>,
    o: LendingObligation,
    f: LendingObligation,
    j: int,
)
    requires
        0 <= j < o.borrows@.len(),
        f.borrows@.len() == o.borrows@.len(),
        borrows_fold(rs, o.borrows@, j as nat) is Ok,
        borrows_fold(rs, o.borrows@, (j + 1) as nat) is Err,
        forall|j2: int|
            0 <= j2 < j ==> refreshed_borrow(rs, true, o.borrows@, j2, #[trigger] f.borrows@[j2]),
        refreshed_borrow(rs, true, o.borrows@, j, f.borrows@[j]),
        forall|j2: int| j < j2 < o.borrows@.len() ==> #[trigger] f.borrows@[j2] == o.borrows@[j2],
    ensures
        forall|j2: int|
            0 <= j2 < o.borrows@.len() ==> refreshed_borrow(
                rs,
                true,
                o.borrows@,
                j2,
                #[trigger] f.borrows@[j2],
            ),
        borrows_fold(rs, o.borrows@, o.borrows@.len()) == borrows_fold(
            rs,
            o.borrows@,
            (j + 1) as nat,
        ),
{
    lemma_borrows_fold_err(rs, o.borrows@, (j + 1) as nat, o.borrows@.len());
    assert forall|j2: int| 0 <= j2 < o.borrows@.len() implies refreshed_borrow(
        rs,
        true,
        o.borrows@,
        j2,
        #[trigger] f.borrows@[j2],
    ) by {
        if j2 > j {
            lemma_borrows_fold_err(rs, o.borrows@, (j + 1) as nat, j2 as nat);
        }
    }
}


/// Refresh every deposit in turn, stopping at the first failure, and give
/// the deposited, allowed-borrow and unhealthy-borrow totals.
fn refresh_deposits(obligation_info: &mut LendingObligation, reserves: &[(Pubkey, Reserve)]) -> (r:
    Result<(Decimal, Decimal, Decimal), LendingError>)
    ensures
        same_obligation_header(*final(obligation_info), *old(obligation_info)),
        final(obligation_info).borrows@ == old(obligation_info).borrows@,
        final(obligation_info).deposits@.len() == old(obligation_info).deposits@.len(),
        forall|i: int|
            0 <= i < old(obligation_info).deposits@.len() ==> refreshed_deposit(
                reserves@,
                old(obligation_info).deposits@,
                i,
                #[trigger] final(obligation_info).deposits@[i],
            ),
        totals_view(r) == deposits_fold(
            reserves@,
            old(obligation_info).deposits@,
            old(obligation_info).deposits@.len(),
        ),
{
    let ghost old_o = *obligation_info;
    let ghost rs = reserves@;
    let mut deposited_value = Decimal::zero();
    let mut allowed_borrow_value = Decimal::zero();
    let mut unhealthy_borrow_value = Decimal::zero();
    let n: usize = obligation_info.deposits.len();
    proof {
        lemma_deposits_fold_step(rs, old_o.deposits@, 0);
    }
    let mut i: usize = 0;
    while i < n
        invariant
            rs == reserves@,
            old_o == *old(obligation_info),
            n == old_o.deposits@.len(),
            0 <= i <= n,
            obligation_info.deposits@.len() == n,
            obligation_info.borrows@ == old_o.borrows@,
            same_obligation_header(*obligation_info, old_o),
            deposits_fold(rs, old_o.deposits@, i as nat) == Ok::<(nat, nat, nat), LendingError>(
                (deposited_value@, allowed_borrow_value@, unhealthy_borrow_value@),
            ),
            forall|i2: int|
                0 <= i2 < i ==> refreshed_deposit(
                    rs,
                    old_o.deposits@,
                    i2,
                    #[trigger] obligation_info.deposits@[i2],
                ),
            forall|i2: int| i <= i2 < n ==> #[trigger] obligation_info.deposits@[i2] == old_o.deposits@[i2],
        decreases n - i,
    {
        proof {
            lemma_deposits_fold_step(rs, old_o.deposits@, i as nat);
        }
        match refresh_deposit(
            obligation_info,
            reserves,
            i,
            (deposited_value, allowed_borrow_value, unhealthy_borrow_value),
        ) {
            Ok(t) => {
                deposited_value = t.0;
                allowed_borrow_value = t.1;
                unhealthy_borrow_value = t.2;
            },
            Err(e) => {
                proof {
                    lemma_deposits_stop(rs, old_o, *obligation_info, i as int);
                }
                return Err(e);
            },
        }
        i = i + 1;
    }
    Ok((deposited_value, allowed_borrow_value, unhealthy_borrow_value))
}

/// Refresh every borrow in turn, stopping at the first failure, and give the
/// borrowed value.
fn refresh_borrows(obligation_info: &mut LendingObligation, reserves: &[(Pubkey, Reserve)]) -> (r:
    Result<Decimal, LendingError>)
    ensures
        same_obligation_header(*final(obligation_info), *old(obligation_info)),
        final(obligation_info).deposits@ == old(obligation_info).deposits@,
        final(obligation_info).borrows@.len() == old(obligation_info).borrows@.len(),
        forall|j: int|
            0 <= j < old(obligation_info).borrows@.len() ==> refreshed_borrow(
                reserves@,
                true,
                old(obligation_info).borrows@,
                j,
                #[trigger] final(obligation_info).borrows@[j],
            ),
        view_res(r) == borrows_fold(
            reserves@,
            old(obligation_info).borrows@,
            old(obligation_info).borrows@.len(),
        ),
{
    let ghost old_o = *obligation_info;
    let ghost rs = reserves@;
    let mut borrowed_value = Decimal::zero();
    let m: usize = obligation_info.borrows.len();
    proof {
        lemma_borrows_fold_step(rs, old_o.borrows@, 0);
    }
    let mut j: usize = 0;
    while j < m
        invariant
            rs == reserves@,
            old_o == *old(obligation_info),
            m == old_o.borrows@.len(),
            0 <= j <= m,
            obligation_info.deposits@ == old_o.deposits@,
            obligation_info.borrows@.len() == m,
            same_obligation_header(*obligation_info, old_o),
            borrows_fold(rs, old_o.borrows@, j as nat) == Ok::<nat, LendingError>(borrowed_value@),
            forall|j2: int|
                0 <= j2 < j ==> refreshed_borrow(
                    rs,
                    true,
                    old_o.borrows@,
                    j2,
                    #[trigger] obligation_info.borrows@[j2],
                ),
            forall|j2: int| j <= j2 < m ==> #[trigger] obligation_info.borrows@[j2] == old_o.borrows@[j2],
        decreases m - j,
    {
        proof {
            lemma_borrows_fold_step(rs, old_o.borrows@, j as nat);
        }
        match refresh_borrow(obligation_info, reserves, j, borrowed_value) {
            Ok(v) => {
                borrowed_value = v;
            },
            Err(e) => {
                proof {
                    lemma_borrows_stop(rs, old_o, *obligation_info, j as int);
                }
                return Err(e);
            },
        }
        j = j + 1;
    }
    Ok(borrowed_value)
}

/// What refreshing obligation `o` from `reserves` leaves, `f`, and returns,
/// `r`: each deposit and borrow refreshed as far as the refresh got, and on
/// success the four values recomputed; on the first failure, that failure
/// and the four values as they were.
pub open spec fn refresh_outcome(
    reserves: Seq<(Pubkey, Reserve)>,
    o: LendingObligation,
    f: LendingObligation,
    r: Result<(), LendingError>,
) -> bool {
    let deposits_done = deposits_fold(reserves, o.deposits@, o.deposits@.len());
    &&& same_obligation_keys(f, o)
    &&& f.deposits@.len() == o.deposits@.len()
    &&& f.borrows@.len() == o.borrows@.len()
    &&& forall|i: int|
        0 <= i < o.deposits@.len() ==> refreshed_deposit(reserves, o.deposits@, i, #[trigger] f.deposits@[i])
    &&& forall|j: int|
        0 <= j < o.borrows@.len() ==> refreshed_borrow(
            reserves,
            deposits_done is Ok,
            o.borrows@,
            j,
            #[trigger] f.borrows@[j],
        )
    &&& match deposits_done {
        Err(e) => r == Err::<(), LendingError>(e) && same_obligation_values(f, o),
        Ok(t) => match borrows_fold(reserves, o.borrows@, o.borrows@.len()) {
            Err(e) => r == Err::<(), LendingError>(e) && same_obligation_values(f, o),
            Ok(bv) => r is Ok && f.deposited_value@ == t.0 && f.allowed_borrow_value@ == t.1
                && f.unhealthy_borrow_value@ == t.2 && f.borrowed_value@ == bv,
        },
    }
}

/// No address names two reserves.
pub open spec fn distinct_keys(reserves: Seq<(Pubkey, Reserve)>) -> bool {
    forall|i: int, j: int|
        0 <= i < j < reserves.len() ==> (#[trigger] reserves[i]).0@ != (#[trigger] reserves[j]).0@
}

/// Refresh an obligation off-chain from the reserves it uses, given as
/// (address, reserve) pairs: each deposit is re-priced at its reserve's
/// exchange rate and market price, each borrow accrues interest up to its
/// reserve's cumulative rate and is re-priced, and the deposited, allowed,
/// unhealthy and borrowed values are recomputed. A deposit or borrow whose
/// reserve is missing is `InvalidAccountData`. No address may name two
/// reserves, as none can in a map. The first failure stops the refresh: the
/// deposits and borrows refreshed before it keep their new state and the four
/// values are left as they were.
pub fn pseudo_refresh_lending_obligation(
    obligation_info: &mut LendingObligation,
    reserves: &[(Pubkey, Reserve)],
) -> (r: Result<(), LendingError>)
    requires
        distinct_keys(reserves@),
    ensures
        refresh_outcome(reserves@, *old(obligation_info), *final(obligation_info), r),
{
    let deposit_totals = match refresh_deposits(obligation_info, reserves) {
        Ok(t) => t,
        Err(e) => {
            return Err(e);
        },
    };
    let borrowed_value = match refresh_borrows(obligation_info, reserves) {
        Ok(v) => v,
        Err(e) => {
            return Err(e);
        },
    };
    obligation_info.deposited_value = deposit_totals.0;
    obligation_info.borrowed_value = borrowed_value;
    obligation_info.allowed_borrow_value = deposit_totals.1;
    obligation_info.unhealthy_borrow_value = deposit_totals.2;
    Ok(())
}


/// A deposit step reads of the deposit only its reserve and amount.
proof fn lemma_deposit_step_reads_reserve_and_amount(
    rs: Seq<(Pubkey, Reserve)>,
    t: (nat, nat, nat),
    c: LendingObligationCollateral,
    c1: LendingObligationCollateral,
)
    requires
        c1.deposit_reserve == c.deposit_reserve,
        c1.deposited_amount == c.deposited_amount,
    ensures
        deposit_step(rs, t, c1) == deposit_step(rs, t, c),
        deposit_value(rs, c1) == deposit_value(rs, c),
{
}

/// A deposit step that succeeds priced its deposit.
proof fn lemma_deposit_step_ok(rs: Seq<(Pubkey, Reserve)>, t: (nat, nat, nat), c: LendingObligationCollateral)
    ensures
        deposit_step(rs, t, c) is Ok ==> deposit_value(rs, c) is Ok,
{
}

/// A borrow step that succeeds found its reserve, accrued its interest and
/// priced it.
proof fn lemma_borrow_step_ok(rs: Seq<(Pubkey, Reserve)>, bv: nat, l: LendingObligationLiquidity)
    ensures
        borrow_step(rs, bv, l) is Ok ==> {
            let found = found_reserve(rs, l.borrow_reserve@);
            &&& found is Ok
            &&& accrue_model(l, found->Ok_0.liquidity.cumulative_borrow_rate_wads@) is Ok
            &&& liquidity_value_model(
                found->Ok_0,
                accrue_model(l, found->Ok_0.liquidity.cumulative_borrow_rate_wads@)->Ok_0,
            ) is Ok
        },
{
}

/// A borrow already accrued up to its reserve's cumulative rate steps as the
/// borrow it was accrued from.
proof fn lemma_borrow_step_accrued(
    rs: Seq<(Pubkey, Reserve)>,
    bv: nat,
    l: LendingObligationLiquidity,
    l1: LendingObligationLiquidity,
)
    requires
        found_reserve(rs, l.borrow_reserve@) is Ok,
        accrue_model(
            l,
            found_reserve(rs, l.borrow_reserve@)->Ok_0.liquidity.cumulative_borrow_rate_wads@,
        ) == Ok::<nat, LendingError>(l1.borrowed_amount_wads@),
        l1.borrow_reserve == l.borrow_reserve,
        l1.cumulative_borrow_rate_wads@
            == found_reserve(rs, l.borrow_reserve@)->Ok_0.liquidity.cumulative_borrow_rate_wads@,
    ensures
        borrow_step(rs, bv, l1) == borrow_step(rs, bv, l),
{
}

/// Folds over deposits that agree in reserve and amount agree.
proof fn lemma_deposits_fold_same(
    rs: Seq<(Pubkey, Reserve)>,
    d: Seq<LendingObligationCollateral>,
    d1: Seq<LendingObligationCollateral>,
    k: nat,
)
    requires
        d1.len() == d.len(),
        k <= d.len(),
        forall|i: int|
            0 <= i < d.len() ==> (#[trigger] d1[i]).deposit_reserve == d[i].deposit_reserve
                && d1[i].deposited_amount == d[i].deposited_amount,
    ensures
        deposits_fold(rs, d1, k) == deposits_fold(rs, d, k),
    decreases k,
{
    lemma_deposits_fold_step(rs, d, 0);
    lemma_deposits_fold_step(rs, d1, 0);
    if k > 0 {
        let k1 = (k - 1) as nat;
        lemma_deposits_fold_same(rs, d, d1, k1);
        lemma_deposits_fold_step(rs, d, k1);
        lemma_deposits_fold_step(rs, d1, k1);
        if deposits_fold(rs, d, k1) is Ok {
            lemma_deposit_step_reads_reserve_and_amount(
                rs,
                deposits_fold(rs, d, k1)->Ok_0,
                d[k1 as int],
                d1[k1 as int],
            );
        }
    }
}

/// Two borrows step alike from every borrowed value.
#[verifier::opaque]
spec fn steps_agree(rs: Seq<(Pubkey, Reserve)>, a: LendingObligationLiquidity, b: LendingObligationLiquidity) -> bool {
    forall|bv: nat| #[trigger] borrow_step(rs, bv, a) == borrow_step(rs, bv, b)
}

/// Folds over borrows whose steps agree agree.
proof fn lemma_borrows_fold_same(
    rs: Seq<(Pubkey, Reserve)>,
    l: Seq<LendingObligationLiquidity>,
    l1: Seq<LendingObligationLiquidity>,
    k: nat,
)
    requires
        l1.len() == l.len(),
        k <= l.len(),
        forall|j: int| 0 <= j < l.len() ==> #[trigger] steps_agree(rs, l1[j], l[j]),
    ensures
        borrows_fold(rs, l1, k) == borrows_fold(rs, l, k),
    decreases k,
{
    lemma_borrows_fold_step(rs, l, 0);
    lemma_borrows_fold_step(rs, l1, 0);
    if k > 0 {
        let k1 = (k - 1) as nat;
        lemma_borrows_fold_same(rs, l, l1, k1);
        lemma_borrows_fold_step(rs, l, k1);
        lemma_borrows_fold_step(rs, l1, k1);
        if borrows_fold(rs, l, k1) is Ok {
            assert(steps_agree(rs, l1[k1 as int], l[k1 as int]));
            reveal(steps_agree);
        }
    }
}

/// Refreshing an obligation a second time from the same reserves, right
/// after a refresh that succeeded, succeeds too and changes nothing: the
/// deposits, the borrows and the four values stay as the first refresh left
/// them.
pub proof fn lemma_refresh_twice_changes_nothing(
    reserves: Seq<(Pubkey, Reserve)>,
    o: LendingObligation,
    o1: LendingObligation,
    o2: LendingObligation,
    r2: Result<(), LendingError>,
)
    requires
        refresh_outcome(reserves, o, o1, Ok(())),
        refresh_outcome(reserves, o1, o2, r2),
    ensures
        r2 is Ok,
        same_obligation_keys(o2, o1),
        same_obligation_values(o2, o1),
        o2.deposits@ == o1.deposits@,
        o2.borrows@ == o1.borrows@,
{
    let rs = reserves;
    let d = o.deposits@;
    let d1 = o1.deposits@;
    let d2 = o2.deposits@;
    let n = d.len();
    let l = o.borrows@;
    let l1 = o1.borrows@;
    let l2 = o2.borrows@;
    let m = l.len();
    assert(deposits_fold(rs, d, n) is Ok);
    assert(borrows_fold(rs, l, m) is Ok);
    // Every deposit was priced by the first refresh.
    assert forall|i: int| 0 <= i < n implies deposits_fold(rs, d, i as nat) is Ok && deposit_value(
        rs,
        #[trigger] d[i],
    ) is Ok by {
        if deposits_fold(rs, d, i as nat) is Err {
            lemma_deposits_fold_err(rs, d, i as nat, n);
        }
        if deposits_fold(rs, d, (i + 1) as nat) is Err {
            lemma_deposits_fold_err(rs, d, (i + 1) as nat, n);
        }
        lemma_deposits_fold_step(rs, d, i as nat);
        lemma_deposit_step_ok(rs, deposits_fold(rs, d, i as nat)->Ok_0, d[i]);
    }
    assert forall|i: int| 0 <= i < n implies (#[trigger] d1[i]).deposit_reserve == d[i].deposit_reserve
        && d1[i].deposited_amount == d[i].deposited_amount by {
        assert(refreshed_deposit(rs, d, i, d1[i]));
    }
    // The second refresh folds the deposits as the first did.
    assert forall|k: nat| k <= n implies #[trigger] deposits_fold(rs, d1, k) == deposits_fold(rs, d, k) by {
        lemma_deposits_fold_same(rs, d, d1, k);
    }
    assert(deposits_fold(rs, d1, n) == deposits_fold(rs, d, n));
    assert forall|i: int| 0 <= i < n implies #[trigger] d2[i] == d1[i] by {
        assert(refreshed_deposit(rs, d, i, d1[i]));
        assert(refreshed_deposit(rs, d1, i, d2[i]));
        assert(deposits_fold(rs, d1, i as nat) == deposits_fold(rs, d, i as nat));
        lemma_deposit_step_reads_reserve_and_amount(rs, (0, 0, 0), d[i], d1[i]);
        crate::uint::lemma_u192_unique(d2[i].market_value.0, d1[i].market_value.0);
    }
    assert(d2 =~= d1);
    // Every borrow was found, accrued and priced by the first refresh.
    assert forall|j: int| 0 <= j < m implies {
        let found = found_reserve(rs, (#[trigger] l[j]).borrow_reserve@);
        &&& borrows_fold(rs, l, j as nat) is Ok
        &&& found is Ok
        &&& accrue_model(l[j], found->Ok_0.liquidity.cumulative_borrow_rate_wads@) is Ok
        &&& liquidity_value_model(
            found->Ok_0,
            accrue_model(l[j], found->Ok_0.liquidity.cumulative_borrow_rate_wads@)->Ok_0,
        ) is Ok
    } by {
        if borrows_fold(rs, l, j as nat) is Err {
            lemma_borrows_fold_err(rs, l, j as nat, m);
        }
        if borrows_fold(rs, l, (j + 1) as nat) is Err {
            lemma_borrows_fold_err(rs, l, (j + 1) as nat, m);
        }
        lemma_borrows_fold_step(rs, l, j as nat);
        lemma_borrow_step_ok(rs, borrows_fold(rs, l, j as nat)->Ok_0, l[j]);
    }
    assert forall|j: int| 0 <= j < m implies #[trigger] steps_agree(rs, l1[j], l[j]) by {
        assert(refreshed_borrow(rs, true, l, j, l1[j]));
        reveal(steps_agree);
        assert forall|bv: nat| #[trigger] borrow_step(rs, bv, l1[j]) == borrow_step(rs, bv, l[j]) by {
            lemma_borrow_step_accrued(rs, bv, l[j], l1[j]);
        }
    }
    assert forall|k: nat| k <= m implies #[trigger] borrows_fold(rs, l1, k) == borrows_fold(rs, l, k) by {
        lemma_borrows_fold_same(rs, l, l1, k);
    }
    assert(borrows_fold(rs, l1, m) == borrows_fold(rs, l, m));
    assert forall|j: int| 0 <= j < m implies #[trigger] l2[j] == l1[j] by {
        assert(refreshed_borrow(rs, true, l, j, l1[j]));
        assert(refreshed_borrow(rs, true, l1, j, l2[j]));
        assert(borrows_fold(rs, l1, j as nat) == borrows_fold(rs, l, j as nat));
        crate::uint::lemma_u192_unique(l2[j].borrowed_amount_wads.0, l1[j].borrowed_amount_wads.0);
        crate::uint::lemma_u192_unique(
            l2[j].cumulative_borrow_rate_wads.0,
            l1[j].cumulative_borrow_rate_wads.0,
        );
        crate::uint::lemma_u192_unique(l2[j].market_value.0, l1[j].market_value.0);
    }
    assert(l2 =~= l1);
    crate::uint::lemma_u192_unique(o2.deposited_value.0, o1.deposited_value.0);
    crate::uint::lemma_u192_unique(o2.allowed_borrow_value.0, o1.allowed_borrow_value.0);
    crate::uint::lemma_u192_unique(o2.unhealthy_borrow_value.0, o1.unhealthy_borrow_value.0);
    crate::uint::lemma_u192_unique(o2.borrowed_value.0, o1.borrowed_value.0);
}

} // verus!
