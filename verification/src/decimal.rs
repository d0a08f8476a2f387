//! Large fixed-point values with 18 decimal digits, held in a `U192`.
use vstd::prelude::*;
use crate::error::LendingError;
use crate::math::{
    HALF_WAD, WAD, ceil_to_u64, floor_to_u64, percent_scaler, plain_mul, round_to_u64,
    scaled_div, scaled_mul, u64_out, wad,
};
use crate::rate::{Rate, overflow_only, rate_out};
use crate::uint::{U192, limb2, u192_bound};

verus! {

/// A non-negative decimal, stored as its value times 10^18.
#[derive(Clone, Copy, Debug, PartialEq, Eq, Structural)]
pub struct Decimal(pub U192);

impl View for Decimal {
    type V = nat;

    open spec fn view(&self) -> nat {
        self.0@
    }
}

/// The scaled value a checked `Decimal` computation gives, or `None` when it failed.
pub open spec fn dec_out(r: Result<Decimal, LendingError>) -> Option<nat> {
    match r {
        Ok(v) => Some(v@),
        Err(_) => None,
    }
}

impl Decimal {
    pub fn zero() -> (r: Decimal)
        ensures
            r@ == 0,
    {
        Decimal(U192::zero())
    }

    pub fn one() -> (r: Decimal)
        ensures
            r@ == wad(),
    {
        Decimal(U192::from_u64(WAD))
    }

    pub fn from_scaled_val(scaled_val: u128) -> (r: Decimal)
        ensures
            r@ == scaled_val,
    {
        Decimal(U192::from_u128(scaled_val))
    }

    /// The scaled value, when it fits a `u128`.
    pub fn to_scaled_val(&self) -> (r: Result<u128, LendingError>)
        ensures
            r matches Ok(v) ==> v == self@,
            r is Err <==> self@ >= limb2(),
            overflow_only(r),
    {
        match self.0.to_u128() {
            Some(v) => Ok(v),
            None => Err(LendingError::MathOverflow),
        }
    }

    /// `percent` percent.
    pub fn from_percent(percent: u8) -> (r: Decimal)
        ensures
            r@ == percent * percent_scaler(),
    {
        Decimal(U192::from_u64(percent as u64 * 10_000_000_000_000_000u64))
    }

    /// The integer `val`.
    pub fn from_u64(val: u64) -> (r: Decimal)
        ensures
            r@ == val * wad(),
    {
        proof {
            vstd::arithmetic::mul::lemma_mul_upper_bound(val as int, u64::MAX as int, wad(), wad());
        }
        Decimal(U192::from_u128(val as u128 * WAD as u128))
    }

    /// The same value as a rate.
    pub fn from_rate(rate: Rate) -> (r: Decimal)
        ensures
            r@ == rate@,
    {
        Decimal(U192::from_u128(rate.0))
    }

    pub fn is_zero(&self) -> (r: bool)
        ensures
            r == (self@ == 0),
    {
        self.0.is_zero()
    }

    pub fn eq(&self, other: &Decimal) -> (r: bool)
        ensures
            r == (self@ == other@),
    {
        self.0.eq(&other.0)
    }

    pub fn lt(&self, other: &Decimal) -> (r: bool)
        ensures
            r == (self@ < other@),
    {
        self.0.lt(&other.0)
    }

    pub fn le(&self, other: &Decimal) -> (r: bool)
        ensures
            r == (self@ <= other@),
    {
        self.0.le(&other.0)
    }

    /// The smaller of the two values.
    pub fn min(self, other: Decimal) -> (r: Decimal)
        ensures
            r@ == (if self@ <= other@ {
                self@
            } else {
                other@
            }),
    {
        if self.le(&other) {
            self
        } else {
            other
        }
    }

    /// Nearest integer, halves rounded up.
    pub fn try_round_u64(&self) -> (r: Result<u64, LendingError>)
        ensures
            u64_out(r) == round_to_u64(self@, u192_bound()),
            overflow_only(r),
    {
        let half = U192::from_u64(HALF_WAD);
        match half.checked_add(&self.0) {
            None => Err(LendingError::MathOverflow),
            Some(v) => {
                let q = v.checked_div(&U192::from_u64(WAD)).unwrap();
                match q.to_u64() {
                    Some(x) => Ok(x),
                    None => Err(LendingError::MathOverflow),
                }
            },
        }
    }

    /// Smallest integer not below the value.
    pub fn try_ceil_u64(&self) -> (r: Result<u64, LendingError>)
        ensures
            u64_out(r) == ceil_to_u64(self@, u192_bound()),
            overflow_only(r),
    {
        let almost_one = U192::from_u64(WAD - 1);
        match almost_one.checked_add(&self.0) {
            None => Err(LendingError::MathOverflow),
            Some(v) => {
                let q = v.checked_div(&U192::from_u64(WAD)).unwrap();
                match q.to_u64() {
                    Some(x) => Ok(x),
                    None => Err(LendingError::MathOverflow),
                }
            },
        }
    }

    /// Largest integer not above the value.
    pub fn try_floor_u64(&self) -> (r: Result<u64, LendingError>)
        ensures
            u64_out(r) == floor_to_u64(self@),
            overflow_only(r),
    {
        let q = self.0.checked_div(&U192::from_u64(WAD)).unwrap();
        match q.to_u64() {
            Some(x) => Ok(x),
            None => Err(LendingError::MathOverflow),
        }
    }

    pub fn try_add(&self, rhs: Decimal) -> (r: Result<Decimal, LendingError>)
        ensures
            dec_out(r) == (if self@ + rhs@ < u192_bound() {
                Some(self@ + rhs@)
            } else {
                None::<nat>
            }),
            overflow_only(r),
    {
        match self.0.checked_add(&rhs.0) {
            Some(v) => Ok(Decimal(v)),
            None => Err(LendingError::MathOverflow),
        }
    }

    pub fn try_sub(&self, rhs: Decimal) -> (r: Result<Decimal, LendingError>)
        ensures
            dec_out(r) == (if self@ >= rhs@ {
                Some((self@ - rhs@) as nat)
            } else {
                None::<nat>
            }),
            overflow_only(r),
    {
        match self.0.checked_sub(&rhs.0) {
            Some(v) => Ok(Decimal(v)),
            None => Err(LendingError::MathOverflow),
        }
    }

    /// Division by a plain integer, rounded down.
    pub fn try_div_u64(&self, rhs: u64) -> (r: Result<Decimal, LendingError>)
        ensures
            dec_out(r) == (if rhs != 0 {
                Some((self@ as int / rhs as int) as nat)
            } else {
                None::<nat>
            }),
            overflow_only(r),
    {
        match self.0.checked_div(&U192::from_u64(rhs)) {
            Some(v) => Ok(Decimal(v)),
            None => Err(LendingError::MathOverflow),
        }
    }

    /// Fixed-point quotient, rounded down.
    pub fn try_div(&self, rhs: Decimal) -> (r: Result<Decimal, LendingError>)
        ensures
            dec_out(r) == scaled_div(self@, rhs@, u192_bound()),
            overflow_only(r),
    {
        match self.0.checked_mul(&U192::from_u64(WAD)) {
            None => Err(LendingError::MathOverflow),
            Some(v) => match v.checked_div(&rhs.0) {
                Some(q) => Ok(Decimal(q)),
                None => Err(LendingError::MathOverflow),
            },
        }
    }

    /// Fixed-point quotient by a rate, rounded down.
    pub fn try_div_rate(&self, rhs: Rate) -> (r: Result<Decimal, LendingError>)
        ensures
            dec_out(r) == scaled_div(self@, rhs@, u192_bound()),
            overflow_only(r),
    {
        self.try_div(Decimal::from_rate(rhs))
    }

    /// Product with a plain integer.
    pub fn try_mul_u64(&self, rhs: u64) -> (r: Result<Decimal, LendingError>)
        ensures
            dec_out(r) == plain_mul(self@, rhs as nat, u192_bound()),
            overflow_only(r),
    {
        match self.0.checked_mul(&U192::from_u64(rhs)) {
            Some(v) => Ok(Decimal(v)),
            None => Err(LendingError::MathOverflow),
        }
    }

    /// Fixed-point product, rounded down.
    pub fn try_mul(&self, rhs: Decimal) -> (r: Result<Decimal, LendingError>)
        ensures
            dec_out(r) == scaled_mul(self@, rhs@, u192_bound()),
            overflow_only(r),
    {
        match self.0.checked_mul(&rhs.0) {
            None => Err(LendingError::MathOverflow),
            Some(v) => Ok(Decimal(v.checked_div(&U192::from_u64(WAD)).unwrap())),
        }
    }

    /// Fixed-point product with a rate, rounded down.
    pub fn try_mul_rate(&self, rhs: Rate) -> (r: Result<Decimal, LendingError>)
        ensures
            dec_out(r) == scaled_mul(self@, rhs@, u192_bound()),
            overflow_only(r),
    {
        self.try_mul(Decimal::from_rate(rhs))
    }
}

impl Rate {
    /// The same value as a rate, when its scaled value fits a `u128`.
    pub fn try_from_decimal(decimal: Decimal) -> (r: Result<Rate, LendingError>)
        ensures
            rate_out(r) == (if decimal@ < limb2() {
                Some(decimal@)
            } else {
                None::<nat>
            }),
            overflow_only(r),
    {
        match decimal.to_scaled_val() {
            Ok(v) => Ok(Rate(v)),
            Err(e) => Err(e),
        }
    }
}

} // verus!
