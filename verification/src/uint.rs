//! A 192-bit unsigned integer made of three 64-bit limbs, with checked
//! arithmetic. It backs the large fixed-point `Decimal` type.
use vstd::prelude::*;
use vstd::arithmetic::mul::*;
use vstd::arithmetic::power2::*;
use vstd::arithmetic::div_mod::*;

verus! {

/// 2^64, the weight of the middle limb.
#[verifier::inline]
pub open spec fn limb() -> int {
    0x1_0000_0000_0000_0000int
}

/// 2^128, the weight of the high limb.
#[verifier::inline]
pub open spec fn limb2() -> int {
    0x1_0000_0000_0000_0000_0000_0000_0000_0000int
}

/// 2^192, one past the largest value a `U192` holds.
#[verifier::inline]
pub open spec fn u192_bound() -> int {
    0x1_0000_0000_0000_0000_0000_0000_0000_0000_0000_0000_0000_0000int
}

/// Unsigned 192-bit integer, little-endian limbs.
#[derive(Clone, Copy, Debug, PartialEq, Eq, Structural)]
pub struct U192 {
    pub lo: u64,
    pub mid: u64,
    pub hi: u64,
}

impl View for U192 {
    type V = nat;

    open spec fn view(&self) -> nat {
        (self.lo as int + self.mid as int * limb() + self.hi as int * limb2()) as nat
    }
}

/// Every `U192` lies below 2^192.
pub proof fn lemma_u192_bounded(x: U192)
    ensures
        0 <= x@ < u192_bound(),
        x@ == x.lo as int + x.mid as int * limb() + x.hi as int * limb2(),
{
}

/// A value has one limb representation.
pub proof fn lemma_u192_unique(a: U192, b: U192)
    requires
        a@ == b@,
    ensures
        a == b,
{
    assert(a.hi == b.hi) by {
        if a.hi < b.hi {
            assert(a@ < b@);
        } else if a.hi > b.hi {
            assert(a@ > b@);
        }
    }
    assert(a.mid == b.mid) by {
        if a.mid < b.mid {
            assert(a@ < b@);
        } else if a.mid > b.mid {
            assert(a@ > b@);
        }
    }
}

impl U192 {
    pub fn zero() -> (r: U192)
        ensures
            r@ == 0,
    {
        U192 { lo: 0, mid: 0, hi: 0 }
    }

    pub fn from_u64(x: u64) -> (r: U192)
        ensures
            r@ == x,
    {
        U192 { lo: x, mid: 0, hi: 0 }
    }

    pub fn from_u128(x: u128) -> (r: U192)
        ensures
            r@ == x,
    {
        let lo = (x % 0x1_0000_0000_0000_0000u128) as u64;
        let mid = (x / 0x1_0000_0000_0000_0000u128) as u64;
        U192 { lo, mid, hi: 0 }
    }

    /// The value as a `u128`, when it fits.
    pub fn to_u128(&self) -> (r: Option<u128>)
        ensures
            r matches Some(v) ==> v == self@,
            r is None <==> self@ > u128::MAX,
    {
        if self.hi == 0 {
            Some(self.mid as u128 * 0x1_0000_0000_0000_0000u128 + self.lo as u128)
        } else {
            None
        }
    }

    /// The value as a `u64`, when it fits.
    pub fn to_u64(&self) -> (r: Option<u64>)
        ensures
            r matches Some(v) ==> v == self@,
            r is None <==> self@ > u64::MAX,
    {
        if self.hi == 0 && self.mid == 0 {
            Some(self.lo)
        } else {
            None
        }
    }

    pub fn is_zero(&self) -> (r: bool)
        ensures
            r == (self@ == 0),
    {
        self.lo == 0 && self.mid == 0 && self.hi == 0
    }

    pub fn eq(&self, other: &U192) -> (r: bool)
        ensures
            r == (self@ == other@),
    {
        self.lo == other.lo && self.mid == other.mid && self.hi == other.hi
    }

    pub fn lt(&self, other: &U192) -> (r: bool)
        ensures
            r == (self@ < other@),
    {
        if self.hi != other.hi {
            self.hi < other.hi
        } else if self.mid != other.mid {
            self.mid < other.mid
        } else {
            self.lo < other.lo
        }
    }

    pub fn le(&self, other: &U192) -> (r: bool)
        ensures
            r == (self@ <= other@),
    {
        !other.lt(self)
    }

    pub fn checked_add(&self, other: &U192) -> (r: Option<U192>)
        ensures
            r matches Some(v) ==> v@ == self@ + other@,
            r is None <==> self@ + other@ >= u192_bound(),
    {
        let s0: u128 = self.lo as u128 + other.lo as u128;
        let l0 = (s0 % 0x1_0000_0000_0000_0000u128) as u64;
        let k0: u128 = s0 / 0x1_0000_0000_0000_0000u128;
        let s1: u128 = self.mid as u128 + other.mid as u128 + k0;
        let l1 = (s1 % 0x1_0000_0000_0000_0000u128) as u64;
        let k1: u128 = s1 / 0x1_0000_0000_0000_0000u128;
        let s2: u128 = self.hi as u128 + other.hi as u128 + k1;
        if s2 >= 0x1_0000_0000_0000_0000u128 {
            None
        } else {
            Some(U192 { lo: l0, mid: l1, hi: s2 as u64 })
        }
    }

    pub fn checked_sub(&self, other: &U192) -> (r: Option<U192>)
        ensures
            r matches Some(v) ==> v@ == self@ - other@,
            r is None <==> self@ < other@,
    {
        if self.lt(other) {
            None
        } else {
            Some(self.wrapping_sub(other))
        }
    }

    /// Subtraction modulo 2^192.
    pub fn wrapping_sub(&self, other: &U192) -> (r: U192)
        ensures
            self@ >= other@ ==> r@ == self@ - other@,
            self@ < other@ ==> r@ == self@ + u192_bound() - other@,
    {
        let (l0, b0) = if self.lo >= other.lo {
            (self.lo - other.lo, 0u64)
        } else {
            ((0x1_0000_0000_0000_0000u128 - other.lo as u128 + self.lo as u128) as u64, 1u64)
        };
        let m: u128 = other.mid as u128 + b0 as u128;
        let (l1, b1) = if self.mid as u128 >= m {
            ((self.mid as u128 - m) as u64, 0u64)
        } else {
            ((0x1_0000_0000_0000_0000u128 - m + self.mid as u128) as u64, 1u64)
        };
        let h: u128 = other.hi as u128 + b1 as u128;
        let l2 = if self.hi as u128 >= h {
            (self.hi as u128 - h) as u64
        } else {
            (0x1_0000_0000_0000_0000u128 - h + self.hi as u128) as u64
        };
        U192 { lo: l0, mid: l1, hi: l2 }
    }
}


/// The full product of two limbs.
fn mul_wide(x: u64, y: u64) -> (r: u128)
    ensures
        r == x * y,
        r < limb2(),
{
    proof {
        lemma_mul_upper_bound(x as int, u64::MAX as int, y as int, u64::MAX as int);
    }
    x as u128 * y as u128
}

/// Expansion of a product of two three-limb numbers by limb weight.
proof fn lemma_mul_expand(a0: int, a1: int, a2: int, b0: int, b1: int, b2: int, l: int)
    ensures
        (a0 + a1 * l + a2 * (l * l)) * (b0 + b1 * l + b2 * (l * l)) == a0 * b0 + (a0 * b1 + a1
            * b0) * l + (a0 * b2 + a1 * b1 + a2 * b0) * (l * l) + ((a1 * b2 + a2 * b1) + a2 * b2
            * l) * (l * l * l),
{
    let aa = a0 + a1 * l + a2 * (l * l);
    assert(aa * (b0 + b1 * l + b2 * (l * l)) == aa * b0 + aa * (b1 * l) + aa * (b2 * (l * l))) by {
        lemma_mul_is_distributive_add(aa, b0 + b1 * l, b2 * (l * l));
        lemma_mul_is_distributive_add(aa, b0, b1 * l);
    }
    assert(aa * b0 == a0 * b0 + a1 * b0 * l + a2 * b0 * (l * l)) by (nonlinear_arith)
        requires
            aa == a0 + a1 * l + a2 * (l * l),
    ;
    let a_b1 = a0 * b1 + a1 * b1 * l + a2 * b1 * (l * l);
    let a_b2 = a0 * b2 + a1 * b2 * l + a2 * b2 * (l * l);
    assert(aa * b1 == a_b1) by (nonlinear_arith)
        requires
            aa == a0 + a1 * l + a2 * (l * l),
            a_b1 == a0 * b1 + a1 * b1 * l + a2 * b1 * (l * l),
    ;
    assert(aa * b2 == a_b2) by (nonlinear_arith)
        requires
            aa == a0 + a1 * l + a2 * (l * l),
            a_b2 == a0 * b2 + a1 * b2 * l + a2 * b2 * (l * l),
    ;
    assert(aa * (b1 * l) == a_b1 * l) by {
        lemma_mul_is_associative(aa, b1, l);
    }
    assert(aa * (b2 * (l * l)) == a_b2 * (l * l)) by {
        lemma_mul_is_associative(aa, b2, l * l);
    }
    assert(a_b1 * l == a0 * b1 * l + a1 * b1 * (l * l) + a2 * b1 * (l * l * l)) by (nonlinear_arith)
        requires
            a_b1 == a0 * b1 + a1 * b1 * l + a2 * b1 * (l * l),
    ;
    assert(a_b2 * (l * l) == a0 * b2 * (l * l) + a1 * b2 * (l * l * l) + a2 * b2 * l * (l * l
        * l)) by (nonlinear_arith)
        requires
            a_b2 == a0 * b2 + a1 * b2 * l + a2 * b2 * (l * l),
    ;
    assert(a1 * b0 * l + a0 * b1 * l == (a0 * b1 + a1 * b0) * l) by (nonlinear_arith);
    assert(a2 * b0 * (l * l) + a1 * b1 * (l * l) + a0 * b2 * (l * l) == (a0 * b2 + a1 * b1 + a2
        * b0) * (l * l)) by (nonlinear_arith);
    assert(a2 * b1 * (l * l * l) + a1 * b2 * (l * l * l) + a2 * b2 * l * (l * l * l) == ((a1 * b2
        + a2 * b1) + a2 * b2 * l) * (l * l * l)) by (nonlinear_arith);
}

/// A product of non-negative factors is at least any of its factors' products
/// with the weight they carry.
proof fn lemma_nonneg_products(a0: int, a1: int, a2: int, b0: int, b1: int, b2: int)
    requires
        0 <= a0,
        0 <= a1,
        0 <= a2,
        0 <= b0,
        0 <= b1,
        0 <= b2,
    ensures
        0 <= a0 * b0,
        0 <= a0 * b1,
        0 <= a1 * b0,
        0 <= a0 * b2,
        0 <= a1 * b1,
        0 <= a2 * b0,
        0 <= a1 * b2,
        0 <= a2 * b1,
        0 <= a2 * b2,
        a1 != 0 && b2 != 0 ==> a1 * b2 >= 1,
        a2 != 0 && b1 != 0 ==> a2 * b1 >= 1,
        a2 != 0 && b2 != 0 ==> a2 * b2 >= 1,
{
    lemma_mul_nonnegative(a0, b0);
    lemma_mul_nonnegative(a0, b1);
    lemma_mul_nonnegative(a1, b0);
    lemma_mul_nonnegative(a0, b2);
    lemma_mul_nonnegative(a1, b1);
    lemma_mul_nonnegative(a2, b0);
    lemma_mul_nonnegative(a1, b2);
    lemma_mul_nonnegative(a2, b1);
    lemma_mul_nonnegative(a2, b2);
    if a1 != 0 && b2 != 0 {
        lemma_mul_strictly_positive(a1, b2);
    }
    if a2 != 0 && b1 != 0 {
        lemma_mul_strictly_positive(a2, b1);
    }
    if a2 != 0 && b2 != 0 {
        lemma_mul_strictly_positive(a2, b2);
    }
}

impl U192 {
    /// `2 * self + bit`, split into its low 192 bits and the bit carried out.
    pub fn shl1_with(&self, bit: bool) -> (r: (U192, bool))
        ensures
            2 * self@ + (if bit { 1int } else { 0int }) == r.0@ + (if r.1 {
                u192_bound()
            } else {
                0int
            }),
    {
        let c: u128 = if bit { 1 } else { 0 };
        let t0: u128 = self.lo as u128 * 2 + c;
        let l0 = (t0 % 0x1_0000_0000_0000_0000u128) as u64;
        let k0: u128 = t0 / 0x1_0000_0000_0000_0000u128;
        let t1: u128 = self.mid as u128 * 2 + k0;
        let l1 = (t1 % 0x1_0000_0000_0000_0000u128) as u64;
        let k1: u128 = t1 / 0x1_0000_0000_0000_0000u128;
        let t2: u128 = self.hi as u128 * 2 + k1;
        let l2 = (t2 % 0x1_0000_0000_0000_0000u128) as u64;
        let k2: u128 = t2 / 0x1_0000_0000_0000_0000u128;
        (U192 { lo: l0, mid: l1, hi: l2 }, k2 == 1)
    }

    pub fn checked_mul(&self, other: &U192) -> (r: Option<U192>)
        ensures
            r matches Some(v) ==> v@ == self@ * other@,
            r is None <==> self@ * other@ >= u192_bound(),
    {
        let ghost a0 = self.lo as int;
        let ghost a1 = self.mid as int;
        let ghost a2 = self.hi as int;
        let ghost b0 = other.lo as int;
        let ghost b1 = other.mid as int;
        let ghost b2 = other.hi as int;
        proof {
            lemma_mul_expand(a0, a1, a2, b0, b1, b2, limb());
            lemma_nonneg_products(a0, a1, a2, b0, b1, b2);
            assert(limb() * limb() == limb2());
            assert(limb() * limb() * limb() == u192_bound());
            assert(self@ * other@ == a0 * b0 + (a0 * b1 + a1 * b0) * limb() + (a0 * b2 + a1 * b1 + a2
                * b0) * limb2() + ((a1 * b2 + a2 * b1) + a2 * b2 * limb()) * u192_bound());
        }
        let ghost high = (a1 * b2 + a2 * b1) + a2 * b2 * limb();
        if (self.hi != 0 && (other.mid != 0 || other.hi != 0)) || (self.mid != 0 && other.hi != 0) {
            proof {
                assert(high >= 1) by {
                    lemma_mul_nonnegative(a2 * b2, limb());
                }
                lemma_mul_inequality(1, high, u192_bound());
            }
            return None;
        }
        assert(high == 0) by {
            if a2 == 0 {
                lemma_mul_basics(limb());
            } else {
                lemma_mul_basics(limb());
            }
        }
        let p00 = mul_wide(self.lo, other.lo);
        let p01 = mul_wide(self.lo, other.mid);
        let p10 = mul_wide(self.mid, other.lo);
        let p02 = mul_wide(self.lo, other.hi);
        let p11 = mul_wide(self.mid, other.mid);
        let p20 = mul_wide(self.hi, other.lo);
        let r0 = (p00 % 0x1_0000_0000_0000_0000u128) as u64;
        let c0: u128 = p00 / 0x1_0000_0000_0000_0000u128;
        let t1: u128 = c0 + p01 % 0x1_0000_0000_0000_0000u128 + p10 % 0x1_0000_0000_0000_0000u128;
        let r1 = (t1 % 0x1_0000_0000_0000_0000u128) as u64;
        let c1: u128 = t1 / 0x1_0000_0000_0000_0000u128;
        if p02 >= 0x1_0000_0000_0000_0000u128 || p11 >= 0x1_0000_0000_0000_0000u128 || p20
            >= 0x1_0000_0000_0000_0000u128 {
            proof {
                assert((a0 * b2 + a1 * b1 + a2 * b0) >= limb());
                lemma_mul_inequality(limb(), a0 * b2 + a1 * b1 + a2 * b0, limb2());
            }
            return None;
        }
        let t2: u128 = c1 + p01 / 0x1_0000_0000_0000_0000u128 + p10 / 0x1_0000_0000_0000_0000u128
            + p02 + p11 + p20;
        proof {
            assert(p00 == r0 as int + c0 as int * limb());
            assert(p01 == p01 % 0x1_0000_0000_0000_0000u128 + (p01 / 0x1_0000_0000_0000_0000u128) as int * limb());
            assert(p10 == p10 % 0x1_0000_0000_0000_0000u128 + (p10 / 0x1_0000_0000_0000_0000u128) as int * limb());
            assert(t1 == r1 as int + c1 as int * limb());
            assert(a0 * b1 + a1 * b0 == p01 + p10);
            assert(a0 * b2 + a1 * b1 + a2 * b0 == p02 + p11 + p20);
            assert(self@ * other@ == p00 + (p01 + p10) * limb() + (p02 + p11 + p20) * limb2());
            assert(self@ * other@ == r0 as int + r1 as int * limb() + t2 as int * limb2());
        }
        if t2 >= 0x1_0000_0000_0000_0000u128 {
            proof {
                lemma_mul_inequality(limb(), t2 as int, limb2());
            }
            return None;
        }
        Some(U192 { lo: r0, mid: r1, hi: t2 as u64 })
    }
}


/// pow2(191) is half of 2^192.
proof fn lemma_pow2_191()
    ensures
        pow2(191) * 2 == u192_bound(),
{
    lemma2_to64_rest();
    lemma_pow2_adds(64, 64);
    lemma_pow2_adds(128, 64);
    lemma_pow2_unfold(192);
}

impl U192 {
    /// Quotient rounded down, or `None` when dividing by zero.
    pub fn checked_div(&self, d: &U192) -> (r: Option<U192>)
        ensures
            r matches Some(q) ==> d@ > 0 && q@ == self@ / d@,
            r is None <==> d@ == 0,
    {
        if d.is_zero() {
            return None;
        }
        let mut x = *self;
        let mut q = U192::zero();
        let mut r = U192::zero();
        let mut i: usize = 0;
        let ghost mut pw: int = 1;
        proof {
            lemma2_to64();
            lemma_pow2_191();
        }
        while i < 192
            invariant
                0 <= i <= 192,
                d@ > 0,
                pw == pow2(i as nat),
                pow2(191) * 2 == u192_bound(),
                r@ < d@,
                self@ * pw == x@ + (q@ * d@ + r@) * u192_bound(),
                q@ * d@ + r@ < pw,
            decreases 192 - i,
        {
            let ghost p_old = q@ * d@ + r@;
            let ghost q_old = q@;
            let ghost r_old = r@;
            let (x2, c) = x.shl1_with(false);
            let (rl, rc) = r.shl1_with(c);
            let bit;
            if rc || !rl.lt(d) {
                r = rl.wrapping_sub(d);
                bit = true;
            } else {
                r = rl;
                bit = false;
            }
            proof {
                lemma_u192_bounded(rl);
                lemma_u192_bounded(*d);
                assert(r@ + (if bit { d@ as int } else { 0int }) == 2 * r_old + (if c { 1int } else { 0int }));
                assert(q_old <= p_old) by {
                    if q_old > 0 {
                        lemma_mul_increases(d@ as int, q_old as int);
                        lemma_mul_is_commutative(d@ as int, q_old as int);
                    }
                    lemma_mul_nonnegative(q_old as int, d@ as int);
                }
                if i < 191 {
                    lemma_pow2_strictly_increases(i as nat, 191);
                }
                assert(2 * q_old + 1 < u192_bound());
            }
            let (q2, qc) = q.shl1_with(bit);
            proof {
                lemma_u192_bounded(q2);
                assert(!qc);
                assert((2 * q_old + 1) * d@ == 2 * (q_old * d@) + d@) by (nonlinear_arith);
                assert((2 * q_old) * d@ == 2 * (q_old * d@)) by (nonlinear_arith);
                assert(q2@ * d@ + r@ == 2 * p_old + (if c { 1int } else { 0int }));
                assert(self@ * (2 * pw) == 2 * (self@ * pw)) by (nonlinear_arith);
                lemma_pow2_unfold((i + 1) as nat);
                pw = 2 * pw;
            }
            q = q2;
            x = x2;
            i = i + 1;
        }
        proof {
            lemma_u192_bounded(x);
            lemma_pow2_unfold(192);
            assert(pw == u192_bound());
            assert(self@ * pw == self@ * u192_bound());
            assert(self@ == q@ * d@ + r@);
            lemma_fundamental_div_mod_converse(self@ as int, d@ as int, q@ as int, r@ as int);
            lemma_mul_is_commutative(d@ as int, q@ as int);
        }
        Some(q)
    }
}

} // verus!
