//! The fixed byte layout of an obligation account.
use vstd::prelude::*;
use crate::error::LendingError;
use crate::last_update::LastUpdate;
use crate::lending_obligation::{
    LendingObligation, LendingObligationCollateral, LendingObligationLiquidity,
    same_obligation_header,
};
use crate::pack::{
    bool_byte, le128, le64, lemma_add_cancel, lemma_byte, lemma_decimal_eq, lemma_join,
    lemma_key_eq, lemma_le_roundtrips, lemma_u64_eq, lemma_untouched, push_byte, push_decimal,
    push_key, push_u64, read_decimal, read_key, read_u64, unpack_bool, write_at,
};
use crate::reserve::{PROGRAM_VERSION, UNINITIALIZED_VERSION};
use crate::uint::limb2;

verus! {

/// Bytes a deposit takes in the entries area.
pub const OBLIGATION_COLLATERAL_LEN: usize = 88;

/// Bytes a borrow takes in the entries area.
pub const OBLIGATION_LIQUIDITY_LEN: usize = 112;

/// Size of a packed obligation account.
pub const OBLIGATION_LEN: usize = 1300;

/// Where the entries area (deposits, then borrows) starts.
pub const OBLIGATION_ENTRIES_OFFSET: usize = 204;

/// Size of the entries area: one deposit and nine borrows.
pub const OBLIGATION_ENTRIES_LEN: usize = 1096;

/// The bytes of the version, last update, addresses and values.
pub open spec fn obligation_head_bytes(o: LendingObligation) -> Seq<u8> {
    seq![o.version] + le64(o.last_update.slot) + seq![bool_byte(o.last_update.stale)]
        + o.lending_market@ + o.owner@ + le128(o.deposited_value@) + le128(o.borrowed_value@)
        + le128(o.allowed_borrow_value@) + le128(o.unhealthy_borrow_value@)
}

/// The data bytes of a deposit entry; the rest of its slot is padding.
pub open spec fn collateral_entry_bytes(c: LendingObligationCollateral) -> Seq<u8> {
    c.deposit_reserve@ + le64(c.deposited_amount) + le128(c.market_value@)
}

/// The data bytes of a borrow entry; the rest of its slot is padding.
pub open spec fn liquidity_entry_bytes(l: LendingObligationLiquidity) -> Seq<u8> {
    l.borrow_reserve@ + le128(l.cumulative_borrow_rate_wads@) + le128(l.borrowed_amount_wads@)
        + le128(l.market_value@)
}

/// Where deposit `i` starts.
pub open spec fn deposit_offset(i: int) -> int {
    204 + 88 * i
}

/// Where borrow `j` starts, after `d` deposits.
pub open spec fn borrow_offset(d: int, j: int) -> int {
    204 + 88 * d + 112 * j
}

/// The data bytes of deposit slot `i` of `s`.
pub open spec fn deposit_slot(s: Seq<u8>, i: int) -> Seq<u8> {
    s.subrange(deposit_offset(i), deposit_offset(i) + 56)
}

/// The data bytes of borrow slot `j` of `s`, after `d` deposits.
pub open spec fn borrow_slot(s: Seq<u8>, d: int, j: int) -> Seq<u8> {
    s.subrange(borrow_offset(d, j), borrow_offset(d, j) + 80)
}

/// `d` deposits and `b` borrows fit the entries area.
pub open spec fn entries_fit(d: int, b: int) -> bool {
    88 * d + 112 * b <= 1096
}

/// The entries fit their area, there are at most 255 of each, and every
/// decimal fits the 16 bytes it is stored in.
pub open spec fn obligation_packable(o: LendingObligation) -> bool {
    &&& entries_fit(o.deposits@.len() as int, o.borrows@.len() as int)
    &&& o.deposited_value@ < limb2()
    &&& o.borrowed_value@ < limb2()
    &&& o.allowed_borrow_value@ < limb2()
    &&& o.unhealthy_borrow_value@ < limb2()
    &&& forall|i: int|
        0 <= i < o.deposits@.len() ==> (#[trigger] o.deposits@[i]).market_value@ < limb2()
    &&& forall|j: int|
        0 <= j < o.borrows@.len() ==> {
            &&& (#[trigger] o.borrows@[j]).cumulative_borrow_rate_wads@ < limb2()
            &&& o.borrows@[j].borrowed_amount_wads@ < limb2()
            &&& o.borrows@[j].market_value@ < limb2()
        }
}

/// `s` holds `o`: its head bytes, the counts of deposits and borrows, and
/// the data bytes of each entry in its slot.
pub open spec fn obligation_layout(o: LendingObligation, s: Seq<u8>) -> bool {
    &&& s.len() >= OBLIGATION_LEN
    &&& s.subrange(0, 138) == obligation_head_bytes(o)
    &&& s[202] == o.deposits@.len()
    &&& s[203] == o.borrows@.len()
    &&& forall|i: int|
        0 <= i < o.deposits@.len() ==> #[trigger] deposit_slot(s, i) == collateral_entry_bytes(
            o.deposits@[i],
        )
    &&& forall|j: int|
        0 <= j < o.borrows@.len() ==> #[trigger] borrow_slot(s, o.deposits@.len() as int, j)
            == liquidity_entry_bytes(o.borrows@[j])
}

/// Byte `k` is written when packing `d` deposits and `b` borrows; all other
/// bytes (the head padding and the padding of each slot, and everything
/// after the last entry) are left as they were.
pub open spec fn obligation_byte_written(d: int, b: int, k: int) -> bool {
    ||| k < 138
    ||| k == 202
    ||| k == 203
    ||| exists|i: int| 0 <= i < d && #[trigger] deposit_offset(i) <= k < deposit_offset(i) + 56
    ||| exists|j: int| 0 <= j < b && #[trigger] borrow_offset(d, j) <= k < borrow_offset(d, j) + 80
}

proof fn lemma_entry_lens(o: LendingObligation)
    ensures
        obligation_head_bytes(o).len() == 138,
        forall|c: LendingObligationCollateral| #[trigger] collateral_entry_bytes(c).len() == 56,
        forall|l: LendingObligationLiquidity| #[trigger] liquidity_entry_bytes(l).len() == 80,
{
    lemma_le_roundtrips();
    vstd::bytes::lemma_auto_spec_u128_to_from_le_bytes();
    assert forall|c: LendingObligationCollateral| #[trigger] collateral_entry_bytes(c).len() == 56 by {
        assert(le128(c.market_value@).len() == 16);
    }
    assert forall|l: LendingObligationLiquidity| #[trigger] liquidity_entry_bytes(l).len() == 80 by {
        assert(le128(l.market_value@).len() == 16);
        assert(le128(l.borrowed_amount_wads@).len() == 16);
        assert(le128(l.cumulative_borrow_rate_wads@).len() == 16);
    }
}

/// Deposit entries with fitting values are determined by their bytes.
proof fn lemma_collateral_entry_injective(a: LendingObligationCollateral, b: LendingObligationCollateral)
    requires
        a.market_value@ < limb2(),
        b.market_value@ < limb2(),
        collateral_entry_bytes(a) == collateral_entry_bytes(b),
    ensures
        a == b,
{
    lemma_le_roundtrips();
    lemma_add_cancel(
        a.deposit_reserve@ + le64(a.deposited_amount),
        le128(a.market_value@),
        b.deposit_reserve@ + le64(b.deposited_amount),
        le128(b.market_value@),
    );
    lemma_add_cancel(a.deposit_reserve@, le64(a.deposited_amount), b.deposit_reserve@, le64(b.deposited_amount));
    lemma_key_eq(a.deposit_reserve.0, b.deposit_reserve.0);
    lemma_u64_eq(a.deposited_amount, b.deposited_amount);
    lemma_decimal_eq(a.market_value, b.market_value);
}

/// Borrow entries with fitting values are determined by their bytes.
proof fn lemma_liquidity_entry_injective(a: LendingObligationLiquidity, b: LendingObligationLiquidity)
    requires
        a.cumulative_borrow_rate_wads@ < limb2(),
        a.borrowed_amount_wads@ < limb2(),
        a.market_value@ < limb2(),
        b.cumulative_borrow_rate_wads@ < limb2(),
        b.borrowed_amount_wads@ < limb2(),
        b.market_value@ < limb2(),
        liquidity_entry_bytes(a) == liquidity_entry_bytes(b),
    ensures
        a == b,
{
    lemma_le_roundtrips();
    vstd::bytes::lemma_auto_spec_u128_to_from_le_bytes();
    let pa = a.borrow_reserve@ + le128(a.cumulative_borrow_rate_wads@);
    let pb = b.borrow_reserve@ + le128(b.cumulative_borrow_rate_wads@);
    assert(le128(a.borrowed_amount_wads@).len() == 16);
    assert(le128(b.borrowed_amount_wads@).len() == 16);
    assert(le128(a.cumulative_borrow_rate_wads@).len() == 16);
    assert(le128(b.cumulative_borrow_rate_wads@).len() == 16);
    lemma_add_cancel(
        pa + le128(a.borrowed_amount_wads@),
        le128(a.market_value@),
        pb + le128(b.borrowed_amount_wads@),
        le128(b.market_value@),
    );
    lemma_add_cancel(pa, le128(a.borrowed_amount_wads@), pb, le128(b.borrowed_amount_wads@));
    lemma_add_cancel(
        a.borrow_reserve@,
        le128(a.cumulative_borrow_rate_wads@),
        b.borrow_reserve@,
        le128(b.cumulative_borrow_rate_wads@),
    );
    lemma_key_eq(a.borrow_reserve.0, b.borrow_reserve.0);
    lemma_decimal_eq(a.cumulative_borrow_rate_wads, b.cumulative_borrow_rate_wads);
    lemma_decimal_eq(a.borrowed_amount_wads, b.borrowed_amount_wads);
    lemma_decimal_eq(a.market_value, b.market_value);
}

/// Obligation heads with fitting values are determined by their bytes.
proof fn lemma_head_injective(a: LendingObligation, b: LendingObligation)
    requires
        obligation_packable(a),
        obligation_packable(b),
        obligation_head_bytes(a) == obligation_head_bytes(b),
    ensures
        same_obligation_header(a, b),
{
    lemma_le_roundtrips();
    vstd::bytes::lemma_auto_spec_u128_to_from_le_bytes();
    let p1a = seq![a.version] + le64(a.last_update.slot);
    let p1b = seq![b.version] + le64(b.last_update.slot);
    let p2a = p1a + seq![bool_byte(a.last_update.stale)];
    let p2b = p1b + seq![bool_byte(b.last_update.stale)];
    let p3a = p2a + a.lending_market@;
    let p3b = p2b + b.lending_market@;
    let p4a = p3a + a.owner@;
    let p4b = p3b + b.owner@;
    let p5a = p4a + le128(a.deposited_value@);
    let p5b = p4b + le128(b.deposited_value@);
    let p6a = p5a + le128(a.borrowed_value@);
    let p6b = p5b + le128(b.borrowed_value@);
    let p7a = p6a + le128(a.allowed_borrow_value@);
    let p7b = p6b + le128(b.allowed_borrow_value@);
    assert(le128(a.deposited_value@).len() == 16);
    assert(le128(b.deposited_value@).len() == 16);
    assert(le128(a.borrowed_value@).len() == 16);
    assert(le128(b.borrowed_value@).len() == 16);
    assert(le128(a.allowed_borrow_value@).len() == 16);
    assert(le128(b.allowed_borrow_value@).len() == 16);
    lemma_add_cancel(p7a, le128(a.unhealthy_borrow_value@), p7b, le128(b.unhealthy_borrow_value@));
    lemma_add_cancel(p6a, le128(a.allowed_borrow_value@), p6b, le128(b.allowed_borrow_value@));
    lemma_add_cancel(p5a, le128(a.borrowed_value@), p5b, le128(b.borrowed_value@));
    lemma_add_cancel(p4a, le128(a.deposited_value@), p4b, le128(b.deposited_value@));
    lemma_add_cancel(p3a, a.owner@, p3b, b.owner@);
    lemma_add_cancel(p2a, a.lending_market@, p2b, b.lending_market@);
    lemma_add_cancel(p1a, seq![bool_byte(a.last_update.stale)], p1b, seq![bool_byte(b.last_update.stale)]);
    lemma_add_cancel(seq![a.version], le64(a.last_update.slot), seq![b.version], le64(b.last_update.slot));
    assert(seq![a.version][0] == seq![b.version][0]);
    assert(seq![bool_byte(a.last_update.stale)][0] == seq![bool_byte(b.last_update.stale)][0]);
    lemma_u64_eq(a.last_update.slot, b.last_update.slot);
    lemma_key_eq(a.lending_market.0, b.lending_market.0);
    lemma_key_eq(a.owner.0, b.owner.0);
    lemma_decimal_eq(a.deposited_value, b.deposited_value);
    lemma_decimal_eq(a.borrowed_value, b.borrowed_value);
    lemma_decimal_eq(a.allowed_borrow_value, b.allowed_borrow_value);
    lemma_decimal_eq(a.unhealthy_borrow_value, b.unhealthy_borrow_value);
    assert(a.last_update == b.last_update);
}

/// Packing then unpacking gives the obligation back: bytes that hold an
/// obligation with a supported version and packable contents are accepted
/// (version and stale flag in range, entries within their area), and every
/// packable obligation those bytes hold has its head, deposits and borrows.
pub proof fn lemma_obligation_pack_roundtrip(o: LendingObligation, s: Seq<u8>)
    requires
        obligation_packable(o),
        o.version <= PROGRAM_VERSION,
        obligation_layout(o, s),
    ensures
        s[0] <= PROGRAM_VERSION,
        s[9] <= 1,
        entries_fit(s[202] as int, s[203] as int),
        forall|v: LendingObligation|
            obligation_packable(v) && #[trigger] obligation_layout(v, s) ==> same_obligation_header(
                v,
                o,
            ) && v.deposits@ == o.deposits@ && v.borrows@ == o.borrows@,
{
    lemma_entry_lens(o);
    lemma_le_roundtrips();
    assert(le64(o.last_update.slot).len() == 8);
    assert(s[0] == s.subrange(0, 138)[0]);
    assert(s[9] == s.subrange(0, 138)[9]);
    assert(obligation_head_bytes(o)[9] == bool_byte(o.last_update.stale));
    assert forall|v: LendingObligation|
        obligation_packable(v) && #[trigger] obligation_layout(v, s) implies same_obligation_header(
            v,
            o,
        ) && v.deposits@ == o.deposits@ && v.borrows@ == o.borrows@ by {
        lemma_head_injective(v, o);
        assert forall|i: int| 0 <= i < o.deposits@.len() implies v.deposits@[i] == o.deposits@[i] by {
            assert(deposit_slot(s, i) == collateral_entry_bytes(o.deposits@[i]));
            assert(deposit_slot(s, i) == collateral_entry_bytes(v.deposits@[i]));
            lemma_collateral_entry_injective(v.deposits@[i], o.deposits@[i]);
        }
        assert(v.deposits@ =~= o.deposits@);
        let d = o.deposits@.len() as int;
        assert forall|j: int| 0 <= j < o.borrows@.len() implies v.borrows@[j] == o.borrows@[j] by {
            assert(borrow_slot(s, d, j) == liquidity_entry_bytes(o.borrows@[j]));
            assert(borrow_slot(s, d, j) == liquidity_entry_bytes(v.borrows@[j]));
            lemma_liquidity_entry_injective(v.borrows@[j], o.borrows@[j]);
        }
        assert(v.borrows@ =~= o.borrows@);
    }
}

impl LendingObligation {
    /// Whether the obligation has been initialized: its version is not the
    /// uninitialized one.
    pub fn is_initialized(&self) -> (r: bool)
        ensures
            r == (self.version != UNINITIALIZED_VERSION),
    {
        self.version != UNINITIALIZED_VERSION
    }

    /// Write the obligation into the first `OBLIGATION_LEN` bytes of `dst`:
    /// its head, the counts of deposits and borrows, then each deposit and
    /// each borrow in its slot of the entries area. Padding is left as it was.
    /// The entries must fit their area and every decimal its 16 bytes.
    pub fn pack_into_slice(&self, dst: &mut [u8])
        requires
            old(dst)@.len() >= OBLIGATION_LEN,
            obligation_packable(*self),
        ensures
            final(dst)@.len() == old(dst)@.len(),
            obligation_layout(*self, final(dst)@),
            forall|k: int|
                0 <= k < old(dst)@.len() && !obligation_byte_written(
                    self.deposits@.len() as int,
                    self.borrows@.len() as int,
                    k,
                ) ==> #[trigger] final(dst)@[k] == old(dst)@[k],
    {
        proof {
            lemma_entry_lens(*self);
        }
        let d: usize = self.deposits.len();
        let b: usize = self.borrows.len();
        let stale: u8 = if self.last_update.stale {
            1
        } else {
            0
        };
        let mut head: Vec<u8> = Vec::new();
        push_byte(&mut head, self.version);
        assert(head@ =~= seq![self.version]);
        push_u64(&mut head, self.last_update.slot);
        push_byte(&mut head, stale);
        push_key(&mut head, &self.lending_market);
        push_key(&mut head, &self.owner);
        push_decimal(&mut head, self.deposited_value);
        push_decimal(&mut head, self.borrowed_value);
        push_decimal(&mut head, self.allowed_borrow_value);
        push_decimal(&mut head, self.unhealthy_borrow_value);
        write_at(dst, 0, head.as_slice());
        dst[202] = d as u8;
        dst[203] = b as u8;
        let mut i: usize = 0;
        while i < d
            invariant
                d == self.deposits@.len(),
                b == self.borrows@.len(),
                obligation_packable(*self),
                dst@.len() == old(dst)@.len(),
                old(dst)@.len() >= OBLIGATION_LEN,
                0 <= i <= d,
                dst@.subrange(0, 138) == obligation_head_bytes(*self),
                dst@[202] == d,
                dst@[203] == b,
                forall|c: LendingObligationCollateral| #[trigger] collateral_entry_bytes(c).len() == 56,
                forall|i2: int|
                    0 <= i2 < i ==> #[trigger] deposit_slot(dst@, i2) == collateral_entry_bytes(
                        self.deposits@[i2],
                    ),
                forall|k: int|
                    0 <= k < dst@.len() && !obligation_byte_written(i as int, 0, k)
                        ==> #[trigger] dst@[k] == old(dst)@[k],
            decreases d - i,
        {
            let c = &self.deposits[i];
            let mut e: Vec<u8> = Vec::new();
            push_key(&mut e, &c.deposit_reserve);
            assert(e@ =~= c.deposit_reserve@);
            push_u64(&mut e, c.deposited_amount);
            push_decimal(&mut e, c.market_value);
            assert(e@ == collateral_entry_bytes(*c));
            let off: usize = 204 + 88 * i;
            assert(off + 56 <= OBLIGATION_LEN);
            let ghost prev = dst@;
            write_at(dst, off, e.as_slice());
            proof {
                lemma_untouched(dst@, prev, off as int, off + 56, 0, 138);
                assert(dst@[202] == prev[202]);
                assert(dst@[203] == prev[203]);
                assert forall|i2: int| 0 <= i2 < i + 1 implies #[trigger] deposit_slot(dst@, i2)
                    == collateral_entry_bytes(self.deposits@[i2]) by {
                    if i2 < i {
                        assert(deposit_slot(prev, i2) == collateral_entry_bytes(self.deposits@[i2]));
                        lemma_untouched(dst@, prev, off as int, off + 56, deposit_offset(i2), deposit_offset(i2) + 56);
                    } else {
                        assert(deposit_offset(i2) == off);
                        assert(self.deposits@[i2] == *c);
                    }
                }
                assert forall|k: int|
                    0 <= k < dst@.len() && !obligation_byte_written(i + 1, 0, k) implies #[trigger] dst@[k]
                        == old(dst)@[k] by {
                    assert(deposit_offset(i as int) == off);
                    assert(!obligation_byte_written(i as int, 0, k));
                    assert(dst@[k] == prev[k]);
                }
            }
            i = i + 1;
        }
        let mut j: usize = 0;
        while j < b
            invariant
                d == self.deposits@.len(),
                b == self.borrows@.len(),
                obligation_packable(*self),
                dst@.len() == old(dst)@.len(),
                old(dst)@.len() >= OBLIGATION_LEN,
                0 <= j <= b,
                dst@.subrange(0, 138) == obligation_head_bytes(*self),
                dst@[202] == d,
                dst@[203] == b,
                forall|l: LendingObligationLiquidity| #[trigger] liquidity_entry_bytes(l).len() == 80,
                forall|i2: int|
                    0 <= i2 < d ==> #[trigger] deposit_slot(dst@, i2) == collateral_entry_bytes(
                        self.deposits@[i2],
                    ),
                forall|j2: int|
                    0 <= j2 < j ==> #[trigger] borrow_slot(dst@, d as int, j2) == liquidity_entry_bytes(
                        self.borrows@[j2],
                    ),
                forall|k: int|
                    0 <= k < dst@.len() && !obligation_byte_written(d as int, j as int, k)
                        ==> #[trigger] dst@[k] == old(dst)@[k],
            decreases b - j,
        {
            let l = &self.borrows[j];
            let mut e: Vec<u8> = Vec::new();
            push_key(&mut e, &l.borrow_reserve);
            assert(e@ =~= l.borrow_reserve@);
            push_decimal(&mut e, l.cumulative_borrow_rate_wads);
            push_decimal(&mut e, l.borrowed_amount_wads);
            push_decimal(&mut e, l.market_value);
            assert(e@ == liquidity_entry_bytes(*l));
            let off: usize = 204 + 88 * d + 112 * j;
            assert(off + 80 <= OBLIGATION_LEN);
            let ghost prev = dst@;
            write_at(dst, off, e.as_slice());
            proof {
                lemma_untouched(dst@, prev, off as int, off + 80, 0, 138);
                assert(dst@[202] == prev[202]);
                assert(dst@[203] == prev[203]);
                assert forall|i2: int| 0 <= i2 < d implies #[trigger] deposit_slot(dst@, i2)
                    == collateral_entry_bytes(self.deposits@[i2]) by {
                    assert(deposit_slot(prev, i2) == collateral_entry_bytes(self.deposits@[i2]));
                    lemma_untouched(dst@, prev, off as int, off + 80, deposit_offset(i2), deposit_offset(i2) + 56);
                }
                assert forall|j2: int| 0 <= j2 < j + 1 implies #[trigger] borrow_slot(dst@, d as int, j2)
                    == liquidity_entry_bytes(self.borrows@[j2]) by {
                    if j2 < j {
                        assert(borrow_slot(prev, d as int, j2) == liquidity_entry_bytes(self.borrows@[j2]));
                        lemma_untouched(
                            dst@,
                            prev,
                            off as int,
                            off + 80,
                            borrow_offset(d as int, j2),
                            borrow_offset(d as int, j2) + 80,
                        );
                    } else {
                        assert(borrow_offset(d as int, j2) == off);
                        assert(self.borrows@[j2] == *l);
                    }
                }
                assert forall|k: int|
                    0 <= k < dst@.len() && !obligation_byte_written(d as int, j + 1, k) implies #[trigger] dst@[k]
                        == old(dst)@[k] by {
                    assert(borrow_offset(d as int, j as int) == off);
                    assert(!obligation_byte_written(d as int, j as int, k));
                    assert(dst@[k] == prev[k]);
                }
            }
            j = j + 1;
        }
    }

    /// Read an obligation from the first `OBLIGATION_LEN` bytes of `src`. A
    /// version above `PROGRAM_VERSION`, or a stale flag other than 0 or 1, is
    /// `InvalidAccountData`; otherwise the obligation the bytes hold. With a
    /// supported version the counts of deposits and borrows must fit the
    /// entries area.
    pub fn unpack_from_slice(src: &[u8]) -> (r: Result<LendingObligation, LendingError>)
        requires
            src@.len() >= OBLIGATION_LEN,
            src@[0] <= PROGRAM_VERSION ==> entries_fit(src@[202] as int, src@[203] as int),
        ensures
            src@[0] > PROGRAM_VERSION ==> r == Err::<LendingObligation, LendingError>(
                LendingError::InvalidAccountData,
            ),
            src@[0] <= PROGRAM_VERSION && src@[9] > 1 ==> r == Err::<LendingObligation, LendingError>(
                LendingError::InvalidAccountData,
            ),
            src@[0] <= PROGRAM_VERSION && src@[9] <= 1 ==> (r matches Ok(o) && obligation_packable(o)
                && obligation_layout(o, src@)),
    {
        let ghost s = src@;
        proof {
            lemma_le_roundtrips();
        }
        let version = src[0];
        if version > PROGRAM_VERSION {
            return Err(LendingError::InvalidAccountData);
        }
        let d: u8 = src[202];
        let b: u8 = src[203];
        let mut deposits: Vec<LendingObligationCollateral> = Vec::new();
        let mut i: u8 = 0;
        while i < d
            invariant
                s == src@,
                s.len() >= OBLIGATION_LEN,
                entries_fit(d as int, b as int),
                0 <= i <= d,
                deposits@.len() == i,
                forall|i2: int|
                    0 <= i2 < i ==> #[trigger] deposit_slot(s, i2) == collateral_entry_bytes(
                        deposits@[i2],
                    ),
                forall|i2: int| 0 <= i2 < i ==> (#[trigger] deposits@[i2]).market_value@ < limb2(),
            decreases d - i,
        {
            let off: usize = 204 + 88 * (i as usize);
            let c = LendingObligationCollateral {
                deposit_reserve: read_key(src, off),
                deposited_amount: read_u64(src, off + 32),
                market_value: read_decimal(src, off + 40),
            };
            proof {
                lemma_join(s, off as int, off + 32, off + 40);
                lemma_join(s, off as int, off + 40, off + 56);
            }
            deposits.push(c);
            i = i + 1;
        }
        let mut borrows: Vec<LendingObligationLiquidity> = Vec::new();
        let mut j: u8 = 0;
        while j < b
            invariant
                s == src@,
                s.len() >= OBLIGATION_LEN,
                entries_fit(d as int, b as int),
                0 <= j <= b,
                borrows@.len() == j,
                forall|j2: int|
                    0 <= j2 < j ==> #[trigger] borrow_slot(s, d as int, j2) == liquidity_entry_bytes(
                        borrows@[j2],
                    ),
                forall|j2: int|
                    0 <= j2 < j ==> (#[trigger] borrows@[j2]).cumulative_borrow_rate_wads@ < limb2()
                        && borrows@[j2].borrowed_amount_wads@ < limb2()
                        && borrows@[j2].market_value@ < limb2(),
            decreases b - j,
        {
            let off: usize = 204 + 88 * (d as usize) + 112 * (j as usize);
            let l = LendingObligationLiquidity {
                borrow_reserve: read_key(src, off),
                cumulative_borrow_rate_wads: read_decimal(src, off + 32),
                borrowed_amount_wads: read_decimal(src, off + 48),
                market_value: read_decimal(src, off + 64),
            };
            proof {
                lemma_join(s, off as int, off + 32, off + 48);
                lemma_join(s, off as int, off + 48, off + 64);
                lemma_join(s, off as int, off + 64, off + 80);
            }
            borrows.push(l);
            j = j + 1;
        }
        let stale = match unpack_bool(src[9]) {
            Ok(v) => v,
            Err(e) => {
                return Err(e);
            },
        };
        let o = LendingObligation {
            version,
            last_update: LastUpdate { slot: read_u64(src, 1), stale },
            lending_market: read_key(src, 10),
            owner: read_key(src, 42),
            deposits,
            borrows,
            deposited_value: read_decimal(src, 74),
            borrowed_value: read_decimal(src, 90),
            allowed_borrow_value: read_decimal(src, 106),
            unhealthy_borrow_value: read_decimal(src, 122),
        };
        proof {
            lemma_byte(s, 0);
            lemma_byte(s, 9);
            lemma_join(s, 0, 1, 9);
            lemma_join(s, 0, 9, 10);
            lemma_join(s, 0, 10, 42);
            lemma_join(s, 0, 42, 74);
            lemma_join(s, 0, 74, 90);
            lemma_join(s, 0, 90, 106);
            lemma_join(s, 0, 106, 122);
            lemma_join(s, 0, 122, 138);
            assert(s.subrange(0, 138) == obligation_head_bytes(o));
        }
        Ok(o)
    }
}

} // verus!
