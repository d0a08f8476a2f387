//! Small fixed-point values with 18 decimal digits, held in a `u128`.
use vstd::prelude::*;
use crate::error::LendingError;
use crate::math::{
    HALF_WAD, WAD, floor_to_u64, percent_scaler, plain_mul, round_to_u64,
    scaled_div, scaled_mul, u64_out, wad,
};
use crate::uint::limb2;

verus! {

/// A non-negative rate, stored as its value times 10^18.
#[derive(Clone, Copy, Debug, PartialEq, Eq, Structural)]
pub struct Rate(pub u128);

impl View for Rate {
    type V = nat;

    open spec fn view(&self) -> nat {
        self.0 as nat
    }
}

/// The scaled value a checked `Rate` computation gives, or `None` when it failed.
pub open spec fn rate_out(r: Result<Rate, LendingError>) -> Option<nat> {
    match r {
        Ok(v) => Some(v@),
        Err(_) => None,
    }
}

/// A failed checked computation fails with `MathOverflow`.
pub open spec fn overflow_only<T>(r: Result<T, LendingError>) -> bool {
    r matches Err(e) ==> e == LendingError::MathOverflow
}

/// One step of exponentiation by squaring, as `Rate::try_pow` runs it: square
/// the base, halve the exponent, and multiply the square into the result when
/// the halved exponent is odd.
pub open spec fn pow_loop(base: nat, ret: nat, exp: nat) -> Option<nat>
    decreases exp,
{
    if exp == 0 {
        Some(ret)
    } else {
        let e = exp / 2;
        match scaled_mul(base, base, limb2()) {
            None => None,
            Some(b) => if e % 2 != 0 {
                match scaled_mul(ret, b, limb2()) {
                    None => None,
                    Some(r) => pow_loop(b, r, e),
                }
            } else {
                pow_loop(b, ret, e)
            },
        }
    }
}

/// Fixed-point power of a scaled value, rounded at each multiplication.
pub open spec fn rate_pow(base: nat, exp: nat) -> Option<nat> {
    pow_loop(base, if exp % 2 != 0 { base } else { wad() as nat }, exp)
}

proof fn lemma_pow_loop_one(exp: nat)
    ensures
        pow_loop(wad() as nat, wad() as nat, exp) == Some(wad() as nat),
    decreases exp,
{
    assert((wad() * wad()) as int / wad() == wad()) by (nonlinear_arith);
    if exp > 0 {
        lemma_pow_loop_one(exp / 2);
    }
}

/// One to any power is one.
pub proof fn lemma_one_to_any_power(exp: nat)
    ensures
        rate_pow(wad() as nat, exp) == Some(wad() as nat),
{
    lemma_pow_loop_one(exp);
}

impl Rate {
    pub fn zero() -> (r: Rate)
        ensures
            r@ == 0,
    {
        Rate(0)
    }

    pub fn one() -> (r: Rate)
        ensures
            r@ == wad(),
    {
        Rate(WAD as u128)
    }

    /// `percent` percent.
    pub fn from_percent(percent: u8) -> (r: Rate)
        ensures
            r@ == percent * percent_scaler(),
    {
        Rate(percent as u128 * 10_000_000_000_000_000u128)
    }

    pub fn from_scaled_val(scaled_val: u64) -> (r: Rate)
        ensures
            r@ == scaled_val,
    {
        Rate(scaled_val as u128)
    }

    pub fn to_scaled_val(&self) -> (r: u128)
        ensures
            r == self@,
    {
        self.0
    }

    /// Nearest integer, halves rounded up.
    pub fn try_round_u64(&self) -> (r: Result<u64, LendingError>)
        ensures
            u64_out(r) == round_to_u64(self@, limb2()),
            overflow_only(r),
    {
        match self.0.checked_add(HALF_WAD as u128) {
            None => Err(LendingError::MathOverflow),
            Some(v) => {
                let q = v / WAD as u128;
                if q <= u64::MAX as u128 {
                    Ok(q as u64)
                } else {
                    Err(LendingError::MathOverflow)
                }
            },
        }
    }

    /// Integer part.
    pub fn try_floor_u64(&self) -> (r: Result<u64, LendingError>)
        ensures
            u64_out(r) == floor_to_u64(self@),
            overflow_only(r),
    {
        let q = self.0 / WAD as u128;
        if q <= u64::MAX as u128 {
            Ok(q as u64)
        } else {
            Err(LendingError::MathOverflow)
        }
    }

    pub fn try_add(&self, rhs: Rate) -> (r: Result<Rate, LendingError>)
        ensures
            rate_out(r) == (if self@ + rhs@ < limb2() {
                Some((self@ + rhs@) as nat)
            } else {
                None::<nat>
            }),
            overflow_only(r),
    {
        match self.0.checked_add(rhs.0) {
            Some(v) => Ok(Rate(v)),
            None => Err(LendingError::MathOverflow),
        }
    }

    pub fn try_sub(&self, rhs: Rate) -> (r: Result<Rate, LendingError>)
        ensures
            rate_out(r) == (if self@ >= rhs@ {
                Some((self@ - rhs@) as nat)
            } else {
                None::<nat>
            }),
            overflow_only(r),
    {
        match self.0.checked_sub(rhs.0) {
            Some(v) => Ok(Rate(v)),
            None => Err(LendingError::MathOverflow),
        }
    }

    /// Division by a plain integer, rounded down.
    pub fn try_div_u64(&self, rhs: u64) -> (r: Result<Rate, LendingError>)
        ensures
            rate_out(r) == (if rhs != 0 {
                Some((self@ as int / rhs as int) as nat)
            } else {
                None::<nat>
            }),
            overflow_only(r),
    {
        if rhs == 0 {
            Err(LendingError::MathOverflow)
        } else {
            Ok(Rate(self.0 / rhs as u128))
        }
    }

    /// Fixed-point quotient, rounded down.
    pub fn try_div(&self, rhs: Rate) -> (r: Result<Rate, LendingError>)
        ensures
            rate_out(r) == scaled_div(self@, rhs@, limb2()),
            overflow_only(r),
    {
        match self.0.checked_mul(WAD as u128) {
            None => Err(LendingError::MathOverflow),
            Some(v) => if rhs.0 == 0 {
                Err(LendingError::MathOverflow)
            } else {
                Ok(Rate(v / rhs.0))
            },
        }
    }

    /// Product with a plain integer.
    pub fn try_mul_u64(&self, rhs: u64) -> (r: Result<Rate, LendingError>)
        ensures
            rate_out(r) == plain_mul(self@, rhs as nat, limb2()),
            overflow_only(r),
    {
        match self.0.checked_mul(rhs as u128) {
            None => Err(LendingError::MathOverflow),
            Some(v) => Ok(Rate(v)),
        }
    }

    /// Fixed-point product, rounded down.
    pub fn try_mul(&self, rhs: Rate) -> (r: Result<Rate, LendingError>)
        ensures
            rate_out(r) == scaled_mul(self@, rhs@, limb2()),
            overflow_only(r),
    {
        match self.0.checked_mul(rhs.0) {
            None => Err(LendingError::MathOverflow),
            Some(v) => Ok(Rate(v / WAD as u128)),
        }
    }

    /// Fixed-point power by repeated squaring, rounding at each product.
    pub fn try_pow(&self, exp: u64) -> (r: Result<Rate, LendingError>)
        ensures
            rate_out(r) == rate_pow(self@, exp as nat),
            overflow_only(r),
    {
        let mut e = exp;
        let mut base = *self;
        let mut ret = if e % 2 != 0 {
            base
        } else {
            Rate::one()
        };
        while e > 0
            invariant
                pow_loop(base@, ret@, e as nat) == rate_pow(self@, exp as nat),
            decreases e,
        {
            e = e / 2;
            base = base.try_mul(base)?;
            if e % 2 != 0 {
                ret = ret.try_mul(base)?;
            }
        }
        Ok(ret)
    }
}

} // verus!
