//! Lending market obligations: a borrower's deposits and borrows, their
//! values, and the rules for repaying, withdrawing and liquidating.
use vstd::prelude::*;
use crate::decimal::Decimal;
use crate::error::LendingError;
use crate::last_update::LastUpdate;
use crate::math::{bind, lift, percent_scaler, scaled_div, scaled_mul, view_res, wad};
use crate::pubkey::Pubkey;
use crate::rate::Rate;
use crate::reserve::{LIQUIDATION_CLOSE_FACTOR, PROGRAM_VERSION, min_nat};
use crate::uint::{limb2, u192_bound};

verus! {

/// Max number of collateral and liquidity reserve accounts combined for an obligation.
pub const MAX_OBLIGATION_RESERVES: usize = 10;

/// Obligation collateral state.
#[derive(Clone, Copy, Debug, PartialEq, Eq)]
pub struct LendingObligationCollateral {
    /// Reserve collateral is deposited to
    pub deposit_reserve: Pubkey,
    /// Amount of collateral deposited
    pub deposited_amount: u64,
    /// Collateral market value in quote currency
    pub market_value: Decimal,
}

/// Obligation liquidity state.
#[derive(Clone, Copy, Debug, PartialEq, Eq)]
pub struct LendingObligationLiquidity {
    /// Reserve liquidity is borrowed from
    pub borrow_reserve: Pubkey,
    /// Borrow rate used for calculating interest
    pub cumulative_borrow_rate_wads: Decimal,
    /// Amount of liquidity borrowed plus interest
    pub borrowed_amount_wads: Decimal,
    /// Liquidity market value in quote currency
    pub market_value: Decimal,
}

/// Lending market obligation state.
#[derive(Clone, Debug, PartialEq, Eq)]
pub struct LendingObligation {
    /// Version of the struct
    pub version: u8,
    /// Last update to collateral, liquidity, or their market values
    pub last_update: LastUpdate,
    /// Lending market address
    pub lending_market: Pubkey,
    /// Owner authority which can borrow liquidity
    pub owner: Pubkey,
    /// Deposited collateral for the obligation, unique by deposit reserve address
    pub deposits: Vec<LendingObligationCollateral>,
    /// Borrowed liquidity for the obligation, unique by borrow reserve address
    pub borrows: Vec<LendingObligationLiquidity>,
    /// Market value of deposits
    pub deposited_value: Decimal,
    /// Market value of borrows
    pub borrowed_value: Decimal,
    /// The maximum borrow value at the weighted average loan to value ratio
    pub allowed_borrow_value: Decimal,
    /// The dangerous borrow value at the weighted average liquidation threshold
    pub unhealthy_borrow_value: Decimal,
}

/// Parameters of a new obligation.
#[derive(Clone, Debug)]
pub struct InitLendingObligationParams {
    /// Last update to collateral, liquidity, or their market values
    pub current_slot: u64,
    /// Lending market address
    pub lending_market: Pubkey,
    /// Owner authority which can borrow liquidity
    pub owner: Pubkey,
    /// Deposited collateral for the obligation, unique by deposit reserve address
    pub deposits: Vec<LendingObligationCollateral>,
    /// Borrowed liquidity for the obligation, unique by borrow reserve address
    pub borrows: Vec<LendingObligationLiquidity>,
}

/// Everything but the deposits and borrows of two obligations agrees.
pub open spec fn same_obligation_header(a: LendingObligation, b: LendingObligation) -> bool {
    &&& a.version == b.version
    &&& a.last_update == b.last_update
    &&& a.lending_market == b.lending_market
    &&& a.owner == b.owner
    &&& a.deposited_value == b.deposited_value
    &&& a.borrowed_value == b.borrowed_value
    &&& a.allowed_borrow_value == b.allowed_borrow_value
    &&& a.unhealthy_borrow_value == b.unhealthy_borrow_value
}

/// Index of the first deposit in `deposit_reserve`, if any.
pub open spec fn deposit_index(deposits: Seq<LendingObligationCollateral>, key: Seq<u8>) -> Option<
    int,
> {
    if exists|i: int| 0 <= i < deposits.len() && (#[trigger] deposits[i]).deposit_reserve@ == key {
        Some(
            choose|i: int|
                0 <= i < deposits.len() && deposits[i].deposit_reserve@ == key && forall|j: int|
                    0 <= j < i ==> (#[trigger] deposits[j]).deposit_reserve@ != key,
        )
    } else {
        None
    }
}

/// Index of the first borrow from `borrow_reserve`, if any.
pub open spec fn borrow_index(borrows: Seq<LendingObligationLiquidity>, key: Seq<u8>) -> Option<int> {
    if exists|i: int| 0 <= i < borrows.len() && (#[trigger] borrows[i]).borrow_reserve@ == key {
        Some(
            choose|i: int|
                0 <= i < borrows.len() && borrows[i].borrow_reserve@ == key && forall|j: int|
                    0 <= j < i ==> (#[trigger] borrows[j]).borrow_reserve@ != key,
        )
    } else {
        None
    }
}

/// Largest amount of `liquidity` one liquidation may settle: the borrow
/// scaled by the close factor's share of the obligation's borrowed value,
/// capped at the borrow's own market value.
pub open spec fn max_liquidation_model(borrowed_value: nat, liquidity: LendingObligationLiquidity) -> Result<
    nat,
    LendingError,
> {
    bind(
        lift(scaled_mul(borrowed_value, (LIQUIDATION_CLOSE_FACTOR * percent_scaler()) as nat, u192_bound())),
        |x: nat|
            bind(
                lift(scaled_div(min_nat(x, liquidity.market_value@), liquidity.market_value@, u192_bound())),
                |p: nat| lift(scaled_mul(liquidity.borrowed_amount_wads@, p, u192_bound())),
            ),
    )
}

/// The deposit after adding `amount` collateral, which must stay within a `u64`.
pub open spec fn collateral_deposit_model(c: LendingObligationCollateral, amount: u64) -> Result<
    LendingObligationCollateral,
    LendingError,
> {
    if c.deposited_amount + amount <= u64::MAX {
        Ok(LendingObligationCollateral { deposited_amount: (c.deposited_amount + amount) as u64, ..c })
    } else {
        Err(LendingError::MathOverflow)
    }
}

/// The deposit after taking `amount` collateral, which it must hold.
pub open spec fn collateral_withdraw_model(c: LendingObligationCollateral, amount: u64) -> Result<
    LendingObligationCollateral,
    LendingError,
> {
    if amount <= c.deposited_amount {
        Ok(LendingObligationCollateral { deposited_amount: (c.deposited_amount - amount) as u64, ..c })
    } else {
        Err(LendingError::MathOverflow)
    }
}

/// Withdrawing the collateral just deposited gives the deposit back.
pub proof fn lemma_collateral_deposit_withdraw(c: LendingObligationCollateral, amount: u64)
    requires
        collateral_deposit_model(c, amount) is Ok,
    ensures
        collateral_withdraw_model(collateral_deposit_model(c, amount)->Ok_0, amount) == Ok::<
            LendingObligationCollateral,
            LendingError,
        >(c),
{
}

/// Repaying what was just borrowed gives the borrow back: a borrow of
/// `amount` followed by a repayment settling `amount` leaves every field as
/// it was.
pub proof fn lemma_liquidity_borrow_repay(
    l: LendingObligationLiquidity,
    amount: Decimal,
    borrowed: LendingObligationLiquidity,
    repaid: LendingObligationLiquidity,
)
    requires
        borrowed.borrowed_amount_wads@ == l.borrowed_amount_wads@ + amount@,
        borrowed.borrow_reserve == l.borrow_reserve,
        borrowed.cumulative_borrow_rate_wads == l.cumulative_borrow_rate_wads,
        borrowed.market_value == l.market_value,
        repaid.borrowed_amount_wads@ == borrowed.borrowed_amount_wads@ - amount@,
        repaid.borrow_reserve == borrowed.borrow_reserve,
        repaid.cumulative_borrow_rate_wads == borrowed.cumulative_borrow_rate_wads,
        repaid.market_value == borrowed.market_value,
    ensures
        repaid == l,
{
    crate::uint::lemma_u192_unique(repaid.borrowed_amount_wads.0, l.borrowed_amount_wads.0);
}

impl LendingObligationCollateral {
    /// Create new obligation collateral.
    pub fn new(deposit_reserve: Pubkey) -> (r: Self)
        ensures
            r.deposit_reserve == deposit_reserve,
            r.deposited_amount == 0,
            r.market_value@ == 0,
    {
        Self { deposit_reserve, deposited_amount: 0, market_value: Decimal::zero() }
    }

    /// Increase deposited collateral.
    pub fn deposit(&mut self, collateral_amount: u64) -> (r: Result<(), LendingError>)
        ensures
            match collateral_deposit_model(*old(self), collateral_amount) {
                Ok(n) => r is Ok && *final(self) == n,
                Err(e) => r == Err::<(), LendingError>(e) && *final(self) == *old(self),
            },
    {
        match self.deposited_amount.checked_add(collateral_amount) {
            Some(v) => {
                self.deposited_amount = v;
                Ok(())
            },
            None => Err(LendingError::MathOverflow),
        }
    }

    /// Decrease deposited collateral.
    pub fn withdraw(&mut self, collateral_amount: u64) -> (r: Result<(), LendingError>)
        ensures
            match collateral_withdraw_model(*old(self), collateral_amount) {
                Ok(n) => r is Ok && *final(self) == n,
                Err(e) => r == Err::<(), LendingError>(e) && *final(self) == *old(self),
            },
    {
        match self.deposited_amount.checked_sub(collateral_amount) {
            Some(v) => {
                self.deposited_amount = v;
                Ok(())
            },
            None => Err(LendingError::MathOverflow),
        }
    }
}

impl LendingObligationLiquidity {
    /// Create new obligation liquidity.
    pub fn new(borrow_reserve: Pubkey, cumulative_borrow_rate_wads: Decimal) -> (r: Self)
        ensures
            r.borrow_reserve == borrow_reserve,
            r.cumulative_borrow_rate_wads == cumulative_borrow_rate_wads,
            r.borrowed_amount_wads@ == 0,
            r.market_value@ == 0,
    {
        Self {
            borrow_reserve,
            cumulative_borrow_rate_wads,
            borrowed_amount_wads: Decimal::zero(),
            market_value: Decimal::zero(),
        }
    }

    /// Decrease borrowed liquidity.
    pub fn repay(&mut self, settle_amount: Decimal) -> (r: Result<(), LendingError>)
        ensures
            settle_amount@ <= old(self).borrowed_amount_wads@ ==> r is Ok && final(self).borrowed_amount_wads@ == old(self).borrowed_amount_wads@ - settle_amount@ && final(self).borrow_reserve == old(self).borrow_reserve && final(self).cumulative_borrow_rate_wads
                == old(self).cumulative_borrow_rate_wads && final(self).market_value == old(self).market_value,
            settle_amount@ > old(self).borrowed_amount_wads@ ==> r == Err::<(), LendingError>(
                LendingError::MathOverflow,
            ) && *final(self) == *old(self),
    {
        self.borrowed_amount_wads = self.borrowed_amount_wads.try_sub(settle_amount)?;
        Ok(())
    }

    /// Increase borrowed liquidity.
    pub fn borrow(&mut self, borrow_amount: Decimal) -> (r: Result<(), LendingError>)
        ensures
            old(self).borrowed_amount_wads@ + borrow_amount@ < u192_bound() ==> r is Ok && final(self).borrowed_amount_wads@ == old(self).borrowed_amount_wads@ + borrow_amount@ && final(self).borrow_reserve == old(self).borrow_reserve && final(self).cumulative_borrow_rate_wads
                == old(self).cumulative_borrow_rate_wads && final(self).market_value == old(self).market_value,
            old(self).borrowed_amount_wads@ + borrow_amount@ >= u192_bound() ==> r == Err::<
                (),
                LendingError,
            >(LendingError::MathOverflow) && *final(self) == *old(self),
    {
        self.borrowed_amount_wads = self.borrowed_amount_wads.try_add(borrow_amount)?;
        Ok(())
    }

    /// Accrue interest up to the reserve's cumulative borrow rate: the borrow
    /// grows by the ratio of the new cumulative rate to the recorded one.
    pub fn accrue_interest(&mut self, cumulative_borrow_rate_wads: Decimal) -> (r: Result<
        (),
        LendingError,
    >)
        ensures
            final(self).borrow_reserve == old(self).borrow_reserve,
            final(self).market_value == old(self).market_value,
            cumulative_borrow_rate_wads@ < old(self).cumulative_borrow_rate_wads@ ==> r == Err::<
                (),
                LendingError,
            >(LendingError::NegativeInterestRate) && *final(self) == *old(self),
            cumulative_borrow_rate_wads@ == old(self).cumulative_borrow_rate_wads@ ==> r is Ok
                && *final(self) == *old(self),
            cumulative_borrow_rate_wads@ > old(self).cumulative_borrow_rate_wads@ ==> match bind(
                lift(
                    scaled_div(
                        cumulative_borrow_rate_wads@,
                        old(self).cumulative_borrow_rate_wads@,
                        u192_bound(),
                    ),
                ),
                |q: nat|
                    if q < limb2() {
                        lift(scaled_mul(old(self).borrowed_amount_wads@, q, u192_bound()))
                    } else {
                        Err(LendingError::MathOverflow)
                    },
            ) {
                Ok(b) => r is Ok && final(self).borrowed_amount_wads@ == b && final(self).cumulative_borrow_rate_wads == cumulative_borrow_rate_wads,
                Err(e) => r == Err::<(), LendingError>(e) && *final(self) == *old(self),
            },
    {
        if cumulative_borrow_rate_wads.lt(&self.cumulative_borrow_rate_wads) {
            return Err(LendingError::NegativeInterestRate);
        } else if cumulative_borrow_rate_wads.eq(&self.cumulative_borrow_rate_wads) {
        } else {
            let compounded_interest_rate = Rate::try_from_decimal(
                cumulative_borrow_rate_wads.try_div(self.cumulative_borrow_rate_wads)?,
            )?;
            self.borrowed_amount_wads = self.borrowed_amount_wads.try_mul_rate(
                compounded_interest_rate,
            )?;
            self.cumulative_borrow_rate_wads = cumulative_borrow_rate_wads;
        }
        Ok(())
    }
}

impl LendingObligation {
    /// Create a new obligation.
    pub fn new(params: InitLendingObligationParams) -> (r: Self)
        ensures
            r.version == PROGRAM_VERSION,
            r.last_update == (LastUpdate { slot: params.current_slot, stale: true }),
            r.lending_market == params.lending_market,
            r.owner == params.owner,
            r.deposits@ == params.deposits@,
            r.borrows@ == params.borrows@,
            r.deposited_value@ == 0,
            r.borrowed_value@ == 0,
            r.allowed_borrow_value@ == 0,
            r.unhealthy_borrow_value@ == 0,
    {
        let mut obligation = LendingObligation {
            version: 0,
            last_update: LastUpdate { slot: 0, stale: false },
            lending_market: Pubkey::zeroed(),
            owner: Pubkey::zeroed(),
            deposits: Vec::new(),
            borrows: Vec::new(),
            deposited_value: Decimal::zero(),
            borrowed_value: Decimal::zero(),
            allowed_borrow_value: Decimal::zero(),
            unhealthy_borrow_value: Decimal::zero(),
        };
        obligation.init(params);
        obligation
    }

    /// Initialize an obligation.
    pub fn init(&mut self, params: InitLendingObligationParams)
        ensures
            final(self).version == PROGRAM_VERSION,
            final(self).last_update == (LastUpdate { slot: params.current_slot, stale: true }),
            final(self).lending_market == params.lending_market,
            final(self).owner == params.owner,
            final(self).deposits@ == params.deposits@,
            final(self).borrows@ == params.borrows@,
            final(self).deposited_value == old(self).deposited_value,
            final(self).borrowed_value == old(self).borrowed_value,
            final(self).allowed_borrow_value == old(self).allowed_borrow_value,
            final(self).unhealthy_borrow_value == old(self).unhealthy_borrow_value,
    {
        self.version = PROGRAM_VERSION;
        self.last_update = LastUpdate::new(params.current_slot);
        self.lending_market = params.lending_market;
        self.owner = params.owner;
        self.deposits = params.deposits;
        self.borrows = params.borrows;
    }

    /// Current ratio of borrowed value to deposited value.
    pub fn loan_to_value(&self) -> (r: Result<Decimal, LendingError>)
        ensures
            view_res(r) == lift(scaled_div(self.borrowed_value@, self.deposited_value@, u192_bound())),
    {
        self.borrowed_value.try_div(self.deposited_value)
    }

    /// Repay liquidity and remove it from borrows if zeroed out.
    pub fn repay(&mut self, settle_amount: Decimal, liquidity_index: usize) -> (r: Result<
        (),
        LendingError,
    >)
        requires
            liquidity_index < old(self).borrows.len(),
        ensures
            same_obligation_header(*final(self), *old(self)),
            final(self).deposits@ == old(self).deposits@,
            ({
                let b = old(self).borrows@[liquidity_index as int];
                if settle_amount@ == b.borrowed_amount_wads@ {
                    r is Ok && final(self).borrows@ == old(self).borrows@.remove(liquidity_index as int)
                } else if settle_amount@ < b.borrowed_amount_wads@ {
                    &&& r is Ok
                    &&& final(self).borrows@.len() == old(self).borrows@.len()
                    &&& forall|j: int|
                        0 <= j < old(self).borrows@.len() && j != liquidity_index ==> final(self).borrows@[j] == old(self).borrows@[j]
                    &&& final(self).borrows@[liquidity_index as int].borrowed_amount_wads@
                        == b.borrowed_amount_wads@ - settle_amount@
                    &&& final(self).borrows@[liquidity_index as int].borrow_reserve == b.borrow_reserve
                    &&& final(self).borrows@[liquidity_index as int].cumulative_borrow_rate_wads
                        == b.cumulative_borrow_rate_wads
                    &&& final(self).borrows@[liquidity_index as int].market_value == b.market_value
                } else {
                    r == Err::<(), LendingError>(LendingError::MathOverflow) && final(self).borrows@
                        == old(self).borrows@
                }
            }),
    {
        if settle_amount.eq(&self.borrows[liquidity_index].borrowed_amount_wads) {
            self.borrows.remove(liquidity_index);
        } else {
            let mut liquidity = self.borrows[liquidity_index];
            liquidity.repay(settle_amount)?;
            self.borrows.set(liquidity_index, liquidity);
        }
        Ok(())
    }

    /// Withdraw collateral and remove it from deposits if zeroed out.
    pub fn withdraw(&mut self, withdraw_amount: u64, collateral_index: usize) -> (r: Result<
        (),
        LendingError,
    >)
        requires
            collateral_index < old(self).deposits.len(),
        ensures
            same_obligation_header(*final(self), *old(self)),
            final(self).borrows@ == old(self).borrows@,
            ({
                let d = old(self).deposits@[collateral_index as int];
                if withdraw_amount == d.deposited_amount {
                    r is Ok && final(self).deposits@ == old(self).deposits@.remove(
                        collateral_index as int,
                    )
                } else if withdraw_amount < d.deposited_amount {
                    r is Ok && final(self).deposits@ == old(self).deposits@.update(
                        collateral_index as int,
                        LendingObligationCollateral {
                            deposited_amount: (d.deposited_amount - withdraw_amount) as u64,
                            ..d
                        },
                    )
                } else {
                    r == Err::<(), LendingError>(LendingError::MathOverflow) && final(self).deposits@
                        == old(self).deposits@
                }
            }),
    {
        if withdraw_amount == self.deposits[collateral_index].deposited_amount {
            self.deposits.remove(collateral_index);
        } else {
            let mut collateral = self.deposits[collateral_index];
            collateral.withdraw(withdraw_amount)?;
            self.deposits.set(collateral_index, collateral);
        }
        Ok(())
    }

    /// Maximum collateral value that can be withdrawn: the deposited value
    /// less the deposits the borrows require, or nothing.
    pub fn max_withdraw_value(&self) -> (r: Result<Decimal, LendingError>)
        ensures
            view_res(r) == bind(
                lift(scaled_mul(self.borrowed_value@, self.deposited_value@, u192_bound())),
                |x: nat|
                    bind(
                        lift(scaled_div(x, self.allowed_borrow_value@, u192_bound())),
                        |required: nat|
                            if required >= self.deposited_value@ {
                                Ok(0nat)
                            } else {
                                Ok((self.deposited_value@ - required) as nat)
                            },
                    ),
            ),
    {
        let required_deposit_value = self.borrowed_value.try_mul(self.deposited_value)?.try_div(
            self.allowed_borrow_value,
        )?;
        if self.deposited_value.le(&required_deposit_value) {
            return Ok(Decimal::zero());
        }
        self.deposited_value.try_sub(required_deposit_value)
    }

    /// Maximum liquidity value that can still be borrowed.
    pub fn remaining_borrow_value(&self) -> (r: Result<Decimal, LendingError>)
        ensures
            view_res(r) == (if self.allowed_borrow_value@ >= self.borrowed_value@ {
                Ok((self.allowed_borrow_value@ - self.borrowed_value@) as nat)
            } else {
                Err(LendingError::MathOverflow)
            }),
    {
        self.allowed_borrow_value.try_sub(self.borrowed_value)
    }

    /// Maximum liquidation amount for a given liquidity.
    pub fn max_liquidation_amount(&self, liquidity: &LendingObligationLiquidity) -> (r: Result<
        Decimal,
        LendingError,
    >)
        ensures
            view_res(r) == max_liquidation_model(self.borrowed_value@, *liquidity),
    {
        let max_liquidation_value = self.borrowed_value.try_mul_rate(
            Rate::from_percent(LIQUIDATION_CLOSE_FACTOR),
        )?.min(liquidity.market_value);
        let max_liquidation_pct = max_liquidation_value.try_div(liquidity.market_value)?;
        liquidity.borrowed_amount_wads.try_mul(max_liquidation_pct)
    }

    /// Find collateral by deposit reserve.
    pub fn find_collateral_in_deposits(&self, deposit_reserve: Pubkey) -> (r: Result<
        (&LendingObligationCollateral, usize),
        LendingError,
    >)
        ensures
            self.deposits@.len() == 0 ==> r == Err::<(&LendingObligationCollateral, usize), LendingError>(
                LendingError::ObligationDepositsEmpty,
            ),
            self.deposits@.len() > 0 ==> match deposit_index(self.deposits@, deposit_reserve@) {
                Some(i) => r matches Ok(p) && p.1 == i && *p.0 == self.deposits@[i],
                None => r == Err::<(&LendingObligationCollateral, usize), LendingError>(
                    LendingError::InvalidObligationCollateral,
                ),
            },
    {
        if self.deposits.len() == 0 {
            return Err(LendingError::ObligationDepositsEmpty);
        }
        match self._find_collateral_index_in_deposits(&deposit_reserve) {
            Some(collateral_index) => Ok((&self.deposits[collateral_index], collateral_index)),
            None => Err(LendingError::InvalidObligationCollateral),
        }
    }

    /// Find collateral by deposit reserve, adding a new, empty one when there
    /// is none and the obligation has room for it.
    pub fn find_or_add_collateral_to_deposits(&mut self, deposit_reserve: Pubkey) -> (r: Result<
        &mut LendingObligationCollateral,
        LendingError,
    >)
        ensures
            same_obligation_header(*final(self), *old(self)),
            final(self).borrows@ == old(self).borrows@,
            match deposit_index(old(self).deposits@, deposit_reserve@) {
                Some(i) => (r matches Ok(c) && *c == old(self).deposits@[i] && final(self).deposits@
                    == old(self).deposits@.update(i, *final(c))),
                None => if old(self).deposits@.len() + old(self).borrows@.len()
                    >= MAX_OBLIGATION_RESERVES {
                    (r matches Err(e) && e == LendingError::ObligationReserveLimit && final(self).deposits@ == old(self).deposits@)
                } else {
                    (r matches Ok(c) && c.deposit_reserve == deposit_reserve && c.deposited_amount
                        == 0 && c.market_value@ == 0 && final(self).deposits@ == old(self).deposits@.push(*final(c)))
                },
            },
    {
        if let Some(collateral_index) = self._find_collateral_index_in_deposits(&deposit_reserve) {
            return Ok(&mut self.deposits[collateral_index]);
        }
        if self.deposits.len() >= MAX_OBLIGATION_RESERVES || self.borrows.len()
            >= MAX_OBLIGATION_RESERVES - self.deposits.len() {
            return Err(LendingError::ObligationReserveLimit);
        }
        let collateral = LendingObligationCollateral::new(deposit_reserve);
        self.deposits.push(collateral);
        let last = self.deposits.len() - 1;
        Ok(&mut self.deposits[last])
    }

    /// Find liquidity by borrow reserve.
    pub fn find_liquidity_in_borrows(&self, borrow_reserve: Pubkey) -> (r: Result<
        (&LendingObligationLiquidity, usize),
        LendingError,
    >)
        ensures
            self.borrows@.len() == 0 ==> r == Err::<(&LendingObligationLiquidity, usize), LendingError>(
                LendingError::ObligationBorrowsEmpty,
            ),
            self.borrows@.len() > 0 ==> match borrow_index(self.borrows@, borrow_reserve@) {
                Some(i) => r matches Ok(p) && p.1 == i && *p.0 == self.borrows@[i],
                None => r == Err::<(&LendingObligationLiquidity, usize), LendingError>(
                    LendingError::InvalidObligationLiquidity,
                ),
            },
    {
        if self.borrows.len() == 0 {
            return Err(LendingError::ObligationBorrowsEmpty);
        }
        match self._find_liquidity_index_in_borrows(&borrow_reserve) {
            Some(liquidity_index) => Ok((&self.borrows[liquidity_index], liquidity_index)),
            None => Err(LendingError::InvalidObligationLiquidity),
        }
    }

    /// Find liquidity by borrow reserve, for changing it.
    pub fn find_liquidity_in_borrows_mut(&mut self, borrow_reserve: Pubkey) -> (r: Result<
        (&mut LendingObligationLiquidity, usize),
        LendingError,
    >)
        ensures
            same_obligation_header(*final(self), *old(self)),
            final(self).deposits@ == old(self).deposits@,
            old(self).borrows@.len() == 0 ==> (r matches Err(e) && e
                == LendingError::ObligationBorrowsEmpty && final(self).borrows@ == old(self).borrows@),
            old(self).borrows@.len() > 0 ==> match borrow_index(old(self).borrows@, borrow_reserve@) {
                Some(i) => (r matches Ok(p) && p.1 == i && *p.0 == old(self).borrows@[i] && final(self).borrows@ == old(self).borrows@.update(i, *final(p.0))),
                None => (r matches Err(e) && e == LendingError::InvalidObligationLiquidity && final(self).borrows@ == old(self).borrows@),
            },
    {
        if self.borrows.len() == 0 {
            return Err(LendingError::ObligationBorrowsEmpty);
        }
        match self._find_liquidity_index_in_borrows(&borrow_reserve) {
            Some(liquidity_index) => Ok((&mut self.borrows[liquidity_index], liquidity_index)),
            None => Err(LendingError::InvalidObligationLiquidity),
        }
    }

    /// Find liquidity by borrow reserve, adding a new, empty one when there is
    /// none and the obligation has room for it.
    pub fn find_or_add_liquidity_to_borrows(
        &mut self,
        borrow_reserve: Pubkey,
        cumulative_borrow_rate_wads: Decimal,
    ) -> (r: Result<&mut LendingObligationLiquidity, LendingError>)
        ensures
            same_obligation_header(*final(self), *old(self)),
            final(self).deposits@ == old(self).deposits@,
            match borrow_index(old(self).borrows@, borrow_reserve@) {
                Some(i) => (r matches Ok(c) && *c == old(self).borrows@[i] && final(self).borrows@
                    == old(self).borrows@.update(i, *final(c))),
                None => if old(self).deposits@.len() + old(self).borrows@.len()
                    >= MAX_OBLIGATION_RESERVES {
                    (r matches Err(e) && e == LendingError::ObligationReserveLimit && final(self).borrows@ == old(self).borrows@)
                } else {
                    (r matches Ok(c) && c.borrow_reserve == borrow_reserve
                        && c.cumulative_borrow_rate_wads == cumulative_borrow_rate_wads
                        && c.borrowed_amount_wads@ == 0 && c.market_value@ == 0 && final(self).borrows@ == old(self).borrows@.push(*final(c)))
                },
            },
    {
        if let Some(liquidity_index) = self._find_liquidity_index_in_borrows(&borrow_reserve) {
            return Ok(&mut self.borrows[liquidity_index]);
        }
        if self.deposits.len() >= MAX_OBLIGATION_RESERVES || self.borrows.len()
            >= MAX_OBLIGATION_RESERVES - self.deposits.len() {
            return Err(LendingError::ObligationReserveLimit);
        }
        let liquidity = LendingObligationLiquidity::new(borrow_reserve, cumulative_borrow_rate_wads);
        self.borrows.push(liquidity);
        let last = self.borrows.len() - 1;
        Ok(&mut self.borrows[last])
    }

    fn _find_collateral_index_in_deposits(&self, deposit_reserve: &Pubkey) -> (r: Option<usize>)
        ensures
            r matches Some(i) ==> deposit_index(self.deposits@, deposit_reserve@) == Some(i as int)
                && i < self.deposits.len(),
            r is None ==> deposit_index(self.deposits@, deposit_reserve@) is None,
    {
        let mut i: usize = 0;
        while i < self.deposits.len()
            invariant
                0 <= i <= self.deposits.len(),
                forall|j: int| 0 <= j < i ==> (#[trigger] self.deposits@[j]).deposit_reserve@ != deposit_reserve@,
            decreases self.deposits.len() - i,
        {
            if self.deposits[i].deposit_reserve.same(deposit_reserve) {
                return Some(i);
            }
            i = i + 1;
        }
        None
    }

    fn _find_liquidity_index_in_borrows(&self, borrow_reserve: &Pubkey) -> (r: Option<usize>)
        ensures
            r matches Some(i) ==> borrow_index(self.borrows@, borrow_reserve@) == Some(i as int)
                && i < self.borrows.len(),
            r is None ==> borrow_index(self.borrows@, borrow_reserve@) is None,
    {
        let mut i: usize = 0;
        while i < self.borrows.len()
            invariant
                0 <= i <= self.borrows.len(),
                forall|j: int| 0 <= j < i ==> (#[trigger] self.borrows@[j]).borrow_reserve@ != borrow_reserve@,
            decreases self.borrows.len() - i,
        {
            if self.borrows[i].borrow_reserve.same(borrow_reserve) {
                return Some(i);
            }
            i = i + 1;
        }
        None
    }
}

} // verus!
