//! Fixed-point scale shared by `Decimal` and `Rate`, and the vault share
//! conversions.
use vstd::prelude::*;
use crate::error::LendingError;

verus! {

/// Number of decimal digits kept after the point.
pub const SCALE: usize = 18;

/// Fixed-point one: 10^18.
pub const WAD: u64 = 1_000_000_000_000_000_000;

/// Half of `WAD`, used for rounding to nearest.
pub const HALF_WAD: u64 = 500_000_000_000_000_000;

/// Scale of one percent: 10^16.
pub const PERCENT_SCALER: u64 = 10_000_000_000_000_000;

#[verifier::inline]
pub open spec fn wad() -> int {
    1_000_000_000_000_000_000int
}

#[verifier::inline]
pub open spec fn half_wad() -> int {
    500_000_000_000_000_000int
}

#[verifier::inline]
pub open spec fn percent_scaler() -> int {
    10_000_000_000_000_000int
}

/// Product of two scaled values, rounded down, when the raw product of their
/// scaled integers stays below `bound`.
pub open spec fn scaled_mul(a: nat, b: nat, bound: int) -> Option<nat> {
    if a * b < bound {
        Some(((a * b) as int / wad()) as nat)
    } else {
        None
    }
}

/// Quotient of two scaled values, rounded down, when the scaled dividend stays
/// below `bound` and the divisor is not zero.
pub open spec fn scaled_div(a: nat, b: nat, bound: int) -> Option<nat> {
    if a as int * wad() < bound && b != 0 {
        Some((a as int * wad() / b as int) as nat)
    } else {
        None
    }
}

/// Product of a scaled value by a plain integer, when it stays below `bound`.
pub open spec fn plain_mul(a: nat, b: nat, bound: int) -> Option<nat> {
    if a * b < bound {
        Some(a * b)
    } else {
        None
    }
}

/// Nearest integer of a scaled value (halves round up), when the rounding
/// stays below `bound` and the result fits a `u64`.
pub open spec fn round_to_u64(a: nat, bound: int) -> Option<u64> {
    if a as int + half_wad() < bound && (a as int + half_wad()) / wad() <= u64::MAX {
        Some(((a as int + half_wad()) / wad()) as u64)
    } else {
        None
    }
}

/// Smallest integer not below a scaled value, when the rounding stays below
/// `bound` and the result fits a `u64`.
pub open spec fn ceil_to_u64(a: nat, bound: int) -> Option<u64> {
    if a as int + wad() - 1 < bound && (a as int + wad() - 1) / wad() <= u64::MAX {
        Some(((a as int + wad() - 1) / wad()) as u64)
    } else {
        None
    }
}

/// Largest integer not above a scaled value, when it fits a `u64`.
pub open spec fn floor_to_u64(a: nat) -> Option<u64> {
    if a as int / wad() <= u64::MAX {
        Some((a as int / wad()) as u64)
    } else {
        None
    }
}

/// The `u64` a checked computation gives, or `None` when it failed.
pub open spec fn u64_out<E>(r: Result<u64, E>) -> Option<u64> {
    match r {
        Ok(v) => Some(v),
        Err(_) => None,
    }
}

/// A checked result: `None` becomes an overflow failure.
pub open spec fn lift<T>(o: Option<T>) -> Result<T, LendingError> {
    match o {
        Some(v) => Ok(v),
        None => Err(LendingError::MathOverflow),
    }
}

/// Runs `f` on a successful result; a failure passes through.
pub open spec fn bind<A, B>(r: Result<A, LendingError>, f: spec_fn(A) -> Result<B, LendingError>) -> Result<
    B,
    LendingError,
> {
    match r {
        Ok(a) => f(a),
        Err(e) => Err(e),
    }
}

/// A result with its success value replaced by that value's view.
pub open spec fn view_res<T: View>(r: Result<T, LendingError>) -> Result<T::V, LendingError> {
    match r {
        Ok(v) => Ok(v@),
        Err(e) => Err(e),
    }
}

/// Underlying tokens owed for `amount` vault shares:
/// `amount * total_vault_balance / total_vlp_shares`, rounded down.
pub fn calculate_underlying_to_withdraw(
    amount: u64,
    total_vlp_shares: u64,
    total_vault_balance: u64,
) -> (r: u64)
    requires
        total_vlp_shares > 0,
        amount * total_vault_balance / total_vlp_shares as int <= u64::MAX,
    ensures
        r == amount * total_vault_balance / total_vlp_shares as int,
{
    proof {
        vstd::arithmetic::mul::lemma_mul_upper_bound(
            amount as int,
            u64::MAX as int,
            total_vault_balance as int,
            u64::MAX as int,
        );
    }
    let product: u128 = amount as u128 * total_vault_balance as u128;
    (product / total_vlp_shares as u128) as u64
}

/// Vault shares issued for `amount` underlying tokens:
/// `amount * total_vlp_shares / total_vault_balance`, rounded down.
pub fn calculate_shares_to_give(amount: u64, total_vlp_shares: u64, total_vault_balance: u64) -> (r:
    u64)
    requires
        total_vault_balance > 0,
        amount * total_vlp_shares / total_vault_balance as int <= u64::MAX,
    ensures
        r == amount * total_vlp_shares / total_vault_balance as int,
{
    proof {
        vstd::arithmetic::mul::lemma_mul_upper_bound(
            amount as int,
            u64::MAX as int,
            total_vlp_shares as int,
            u64::MAX as int,
        );
    }
    let product: u128 = amount as u128 * total_vlp_shares as u128;
    (product / total_vault_balance as u128) as u64
}

/// A whole number of tokens, scaled, rounds back to itself whichever way it
/// is rounded: nearest, up or down.
pub proof fn lemma_whole_rounds_to_itself(x: u64, bound: int)
    requires
        bound >= crate::uint::u192_bound(),
    ensures
        floor_to_u64((x * wad()) as nat) == Some(x),
        round_to_u64((x * wad()) as nat, bound) == Some(x),
        ceil_to_u64((x * wad()) as nat, bound) == Some(x),
{
    let w = wad();
    let xi = x as int;
    vstd::arithmetic::div_mod::lemma_div_by_multiple(xi, w);
    assert((xi * w + half_wad()) / w == xi) by (nonlinear_arith)
        requires
            w == 1_000_000_000_000_000_000,
            half_wad() == 500_000_000_000_000_000,
            0 <= xi,
    ;
    assert((xi * w + w - 1) / w == xi) by (nonlinear_arith)
        requires
            w == 1_000_000_000_000_000_000,
            0 <= xi,
    ;
    assert(xi * w <= u64::MAX * w) by (nonlinear_arith)
        requires
            xi <= u64::MAX,
            w > 0,
    ;
}

/// Whenever rounding up succeeds, so do rounding down and to nearest, and
/// the three results are ordered: down, nearest, up, with up at most one
/// above down.
pub proof fn lemma_rounding_order(a: nat, bound: int)
    requires
        ceil_to_u64(a, bound) is Some,
    ensures
        floor_to_u64(a) is Some,
        round_to_u64(a, bound) is Some,
        floor_to_u64(a)->0 <= round_to_u64(a, bound)->0,
        round_to_u64(a, bound)->0 <= ceil_to_u64(a, bound)->0,
        ceil_to_u64(a, bound)->0 <= floor_to_u64(a)->0 + 1,
{
    let w = wad();
    let x = a as int;
    vstd::arithmetic::div_mod::lemma_div_is_ordered(x, x + half_wad(), w);
    vstd::arithmetic::div_mod::lemma_div_is_ordered(x + half_wad(), x + w - 1, w);
    vstd::arithmetic::div_mod::lemma_fundamental_div_mod(x, w);
    vstd::arithmetic::div_mod::lemma_mod_pos_bound(x, w);
    let q = x / w;
    let m = x % w;
    assert(x + w - 1 == w * (q + 1) + (m - 1));
    if m == 0 {
        assert(x + w - 1 == w * q + (w - 1));
        vstd::arithmetic::div_mod::lemma_fundamental_div_mod_converse(x + w - 1, w, q, w - 1);
    } else {
        vstd::arithmetic::div_mod::lemma_fundamental_div_mod_converse(x + w - 1, w, q + 1, m - 1);
    }
}

/// Giving shares for a deposit and then redeeming them never pays out more
/// than was deposited: both conversions round down.
pub proof fn lemma_share_roundtrip_rounds_down(
    amount: u64,
    total_vlp_shares: u64,
    total_vault_balance: u64,
)
    requires
        total_vlp_shares > 0,
        total_vault_balance > 0,
    ensures
        (amount * total_vlp_shares / total_vault_balance as int) * total_vault_balance
            / total_vlp_shares as int <= amount,
{
    let a = amount as int;
    let s = total_vlp_shares as int;
    let b = total_vault_balance as int;
    let q = a * s / b;
    vstd::arithmetic::div_mod::lemma_fundamental_div_mod(a * s, b);
    vstd::arithmetic::div_mod::lemma_mod_pos_bound(a * s, b);
    assert(q * b <= a * s) by (nonlinear_arith)
        requires
            a * s == b * ((a * s) / b) + (a * s) % b,
            0 <= (a * s) % b,
            q == (a * s) / b,
    ;
    vstd::arithmetic::div_mod::lemma_div_is_ordered(q * b, a * s, s);
    vstd::arithmetic::div_mod::lemma_div_by_multiple(a, s);
    assert((a * s) / s == a);
}

} // verus!
