//! The fixed byte layout of a reserve account.
use vstd::prelude::*;
use crate::error::LendingError;
use crate::last_update::LastUpdate;
use crate::pack::{
    bool_byte, le128, le64, lemma_add_cancel, lemma_byte, lemma_decimal_eq, lemma_join,
    lemma_key_eq, lemma_le_roundtrips, lemma_u64_eq, push_byte, push_bytes, push_decimal, push_key,
    push_u64, read_decimal, read_key, read_u64, unpack_bool, write_prefix,
};
use crate::reserve::{
    Reserve, ReserveCollateral, ReserveConfig, ReserveFees, ReserveLiquidity, PROGRAM_VERSION, UNINITIALIZED_VERSION,
};
use crate::uint::limb2;

verus! {

/// Size of a packed reserve account.
pub const RESERVE_LEN: usize = 622;

/// Bytes of a packed reserve that carry data; the rest is padding.
pub const RESERVE_DATA_LEN: usize = 374;

/// Every decimal of the reserve fits the 16 bytes it is stored in.
pub open spec fn reserve_packable(r: Reserve) -> bool {
    &&& r.liquidity.borrowed_amount_wads@ < limb2()
    &&& r.liquidity.cumulative_borrow_rate_wads@ < limb2()
    &&& r.liquidity.market_price@ < limb2()
    &&& r.liquidity.platform_amount_wads@ < limb2()
}

/// The bytes of the version, last update and market addresses.
pub open spec fn reserve_header_bytes(r: Reserve) -> Seq<u8> {
    seq![r.version] + le64(r.last_update.slot) + seq![bool_byte(r.last_update.stale)]
        + r.lending_market@ + r.borrow_authorizer@
}

/// The bytes of the liquidity state.
pub open spec fn liquidity_bytes(l: ReserveLiquidity) -> Seq<u8> {
    l.mint_pubkey@ + seq![l.mint_decimals] + l.supply_pubkey@ + l.fee_receiver@
        + l.oracle_pubkey@ + le64(l.available_amount) + le128(l.borrowed_amount_wads@) + le128(
        l.cumulative_borrow_rate_wads@,
    ) + le128(l.market_price@) + le128(l.platform_amount_wads@) + seq![l.platform_fees]
}

/// The bytes of the collateral state.
pub open spec fn collateral_bytes(c: ReserveCollateral) -> Seq<u8> {
    c.mint_pubkey@ + le64(c.mint_total_supply) + c.supply_pubkey@
}

/// The bytes of the configuration.
pub open spec fn config_bytes(c: ReserveConfig) -> Seq<u8> {
    seq![
        c.optimal_utilization_rate,
        c.degen_utilization_rate,
        c.loan_to_value_ratio,
        c.liquidation_bonus,
        c.liquidation_threshold,
        c.min_borrow_rate,
        c.optimal_borrow_rate,
        c.degen_borrow_rate,
        c.max_borrow_rate,
    ] + le64(c.fees.borrow_fee_wad) + le64(c.fees.flash_loan_fee_wad) + seq![
        c.fees.host_fee_percentage,
    ]
}

/// The data bytes of a packed reserve, in storage order.
pub open spec fn reserve_bytes(r: Reserve) -> Seq<u8> {
    reserve_header_bytes(r) + liquidity_bytes(r.liquidity) + collateral_bytes(r.collateral)
        + config_bytes(r.config)
}

/// The encodings of the fields have the widths of the layout.
proof fn lemma_reserve_bytes_len(r: Reserve)
    ensures
        reserve_header_bytes(r).len() == 74,
        liquidity_bytes(r.liquidity).len() == 202,
        collateral_bytes(r.collateral).len() == 72,
        config_bytes(r.config).len() == 26,
        reserve_bytes(r).len() == RESERVE_DATA_LEN,
{
    lemma_le_roundtrips();
    vstd::bytes::lemma_auto_spec_u128_to_from_le_bytes();
}

/// A reserve is determined by its packed bytes: two reserves whose decimals
/// fit their fields and whose data bytes agree are the same reserve.
pub proof fn lemma_reserve_bytes_injective(a: Reserve, b: Reserve)
    requires
        reserve_packable(a),
        reserve_packable(b),
        reserve_bytes(a) == reserve_bytes(b),
    ensures
        a == b,
{
    lemma_reserve_bytes_len(a);
    lemma_reserve_bytes_len(b);
    lemma_le_roundtrips();
    vstd::bytes::lemma_auto_spec_u128_to_from_le_bytes();
    let ha = reserve_header_bytes(a);
    let la = liquidity_bytes(a.liquidity);
    let ca = collateral_bytes(a.collateral);
    let ga = config_bytes(a.config);
    let hb = reserve_header_bytes(b);
    let lb = liquidity_bytes(b.liquidity);
    let cb = collateral_bytes(b.collateral);
    let gb = config_bytes(b.config);
    lemma_add_cancel(ha + la + ca, ga, hb + lb + cb, gb);
    lemma_add_cancel(ha + la, ca, hb + lb, cb);
    lemma_add_cancel(ha, la, hb, lb);
    // header
    lemma_add_cancel(
        seq![a.version] + le64(a.last_update.slot) + seq![bool_byte(a.last_update.stale)]
            + a.lending_market@,
        a.borrow_authorizer@,
        seq![b.version] + le64(b.last_update.slot) + seq![bool_byte(b.last_update.stale)]
            + b.lending_market@,
        b.borrow_authorizer@,
    );
    lemma_add_cancel(
        seq![a.version] + le64(a.last_update.slot) + seq![bool_byte(a.last_update.stale)],
        a.lending_market@,
        seq![b.version] + le64(b.last_update.slot) + seq![bool_byte(b.last_update.stale)],
        b.lending_market@,
    );
    lemma_add_cancel(
        seq![a.version] + le64(a.last_update.slot),
        seq![bool_byte(a.last_update.stale)],
        seq![b.version] + le64(b.last_update.slot),
        seq![bool_byte(b.last_update.stale)],
    );
    lemma_add_cancel(seq![a.version], le64(a.last_update.slot), seq![b.version], le64(b.last_update.slot));
    assert(seq![a.version][0] == seq![b.version][0]);
    assert(seq![bool_byte(a.last_update.stale)][0] == seq![bool_byte(b.last_update.stale)][0]);
    lemma_u64_eq(a.last_update.slot, b.last_update.slot);
    lemma_key_eq(a.lending_market.0, b.lending_market.0);
    lemma_key_eq(a.borrow_authorizer.0, b.borrow_authorizer.0);
    lemma_liquidity_bytes_injective(a.liquidity, b.liquidity);
    lemma_collateral_bytes_injective(a.collateral, b.collateral);
    lemma_config_bytes_injective(a.config, b.config);
    assert(a.last_update == b.last_update);
}

proof fn lemma_liquidity_bytes_injective(a: ReserveLiquidity, b: ReserveLiquidity)
    requires
        a.borrowed_amount_wads@ < limb2(),
        a.cumulative_borrow_rate_wads@ < limb2(),
        a.market_price@ < limb2(),
        a.platform_amount_wads@ < limb2(),
        b.borrowed_amount_wads@ < limb2(),
        b.cumulative_borrow_rate_wads@ < limb2(),
        b.market_price@ < limb2(),
        b.platform_amount_wads@ < limb2(),
        liquidity_bytes(a) == liquidity_bytes(b),
    ensures
        a == b,
{
    lemma_le_roundtrips();
    vstd::bytes::lemma_auto_spec_u128_to_from_le_bytes();
    let p1a = a.mint_pubkey@ + seq![a.mint_decimals];
    let p1b = b.mint_pubkey@ + seq![b.mint_decimals];
    let p2a = p1a + a.supply_pubkey@;
    let p2b = p1b + b.supply_pubkey@;
    let p3a = p2a + a.fee_receiver@;
    let p3b = p2b + b.fee_receiver@;
    let p4a = p3a + a.oracle_pubkey@;
    let p4b = p3b + b.oracle_pubkey@;
    let p5a = p4a + le64(a.available_amount);
    let p5b = p4b + le64(b.available_amount);
    let p6a = p5a + le128(a.borrowed_amount_wads@);
    let p6b = p5b + le128(b.borrowed_amount_wads@);
    let p7a = p6a + le128(a.cumulative_borrow_rate_wads@);
    let p7b = p6b + le128(b.cumulative_borrow_rate_wads@);
    let p8a = p7a + le128(a.market_price@);
    let p8b = p7b + le128(b.market_price@);
    let p9a = p8a + le128(a.platform_amount_wads@);
    let p9b = p8b + le128(b.platform_amount_wads@);
    lemma_add_cancel(p9a, seq![a.platform_fees], p9b, seq![b.platform_fees]);
    lemma_add_cancel(p8a, le128(a.platform_amount_wads@), p8b, le128(b.platform_amount_wads@));
    lemma_add_cancel(p7a, le128(a.market_price@), p7b, le128(b.market_price@));
    lemma_add_cancel(
        p6a,
        le128(a.cumulative_borrow_rate_wads@),
        p6b,
        le128(b.cumulative_borrow_rate_wads@),
    );
    lemma_add_cancel(p5a, le128(a.borrowed_amount_wads@), p5b, le128(b.borrowed_amount_wads@));
    lemma_add_cancel(p4a, le64(a.available_amount), p4b, le64(b.available_amount));
    lemma_add_cancel(p3a, a.oracle_pubkey@, p3b, b.oracle_pubkey@);
    lemma_add_cancel(p2a, a.fee_receiver@, p2b, b.fee_receiver@);
    lemma_add_cancel(p1a, a.supply_pubkey@, p1b, b.supply_pubkey@);
    lemma_add_cancel(a.mint_pubkey@, seq![a.mint_decimals], b.mint_pubkey@, seq![b.mint_decimals]);
    assert(seq![a.mint_decimals][0] == seq![b.mint_decimals][0]);
    assert(seq![a.platform_fees][0] == seq![b.platform_fees][0]);
    lemma_key_eq(a.mint_pubkey.0, b.mint_pubkey.0);
    lemma_key_eq(a.supply_pubkey.0, b.supply_pubkey.0);
    lemma_key_eq(a.fee_receiver.0, b.fee_receiver.0);
    lemma_key_eq(a.oracle_pubkey.0, b.oracle_pubkey.0);
    lemma_u64_eq(a.available_amount, b.available_amount);
    lemma_decimal_eq(a.borrowed_amount_wads, b.borrowed_amount_wads);
    lemma_decimal_eq(a.cumulative_borrow_rate_wads, b.cumulative_borrow_rate_wads);
    lemma_decimal_eq(a.market_price, b.market_price);
    lemma_decimal_eq(a.platform_amount_wads, b.platform_amount_wads);
}

proof fn lemma_collateral_bytes_injective(a: ReserveCollateral, b: ReserveCollateral)
    requires
        collateral_bytes(a) == collateral_bytes(b),
    ensures
        a == b,
{
    lemma_le_roundtrips();
    lemma_add_cancel(
        a.mint_pubkey@ + le64(a.mint_total_supply),
        a.supply_pubkey@,
        b.mint_pubkey@ + le64(b.mint_total_supply),
        b.supply_pubkey@,
    );
    lemma_add_cancel(a.mint_pubkey@, le64(a.mint_total_supply), b.mint_pubkey@, le64(b.mint_total_supply));
    lemma_key_eq(a.mint_pubkey.0, b.mint_pubkey.0);
    lemma_key_eq(a.supply_pubkey.0, b.supply_pubkey.0);
    lemma_u64_eq(a.mint_total_supply, b.mint_total_supply);
}

proof fn lemma_config_bytes_injective(a: ReserveConfig, b: ReserveConfig)
    requires
        config_bytes(a) == config_bytes(b),
    ensures
        a == b,
{
    lemma_le_roundtrips();
    let ra = seq![
        a.optimal_utilization_rate,
        a.degen_utilization_rate,
        a.loan_to_value_ratio,
        a.liquidation_bonus,
        a.liquidation_threshold,
        a.min_borrow_rate,
        a.optimal_borrow_rate,
        a.degen_borrow_rate,
        a.max_borrow_rate,
    ];
    let rb = seq![
        b.optimal_utilization_rate,
        b.degen_utilization_rate,
        b.loan_to_value_ratio,
        b.liquidation_bonus,
        b.liquidation_threshold,
        b.min_borrow_rate,
        b.optimal_borrow_rate,
        b.degen_borrow_rate,
        b.max_borrow_rate,
    ];
    lemma_add_cancel(
        ra + le64(a.fees.borrow_fee_wad) + le64(a.fees.flash_loan_fee_wad),
        seq![a.fees.host_fee_percentage],
        rb + le64(b.fees.borrow_fee_wad) + le64(b.fees.flash_loan_fee_wad),
        seq![b.fees.host_fee_percentage],
    );
    lemma_add_cancel(
        ra + le64(a.fees.borrow_fee_wad),
        le64(a.fees.flash_loan_fee_wad),
        rb + le64(b.fees.borrow_fee_wad),
        le64(b.fees.flash_loan_fee_wad),
    );
    lemma_add_cancel(ra, le64(a.fees.borrow_fee_wad), rb, le64(b.fees.borrow_fee_wad));
    assert(ra[0] == rb[0] && ra[1] == rb[1] && ra[2] == rb[2] && ra[3] == rb[3]);
    assert(ra[4] == rb[4] && ra[5] == rb[5] && ra[6] == rb[6] && ra[7] == rb[7] && ra[8] == rb[8]);
    assert(seq![a.fees.host_fee_percentage][0] == seq![b.fees.host_fee_percentage][0]);
    lemma_u64_eq(a.fees.borrow_fee_wad, b.fees.borrow_fee_wad);
    lemma_u64_eq(a.fees.flash_loan_fee_wad, b.fees.flash_loan_fee_wad);
    assert(a.fees == b.fees);
}

impl Reserve {
    /// Whether the reserve has been initialized: its version is not the
    /// uninitialized one.
    pub fn is_initialized(&self) -> (r: bool)
        ensures
            r == (self.version != UNINITIALIZED_VERSION),
    {
        self.version != UNINITIALIZED_VERSION
    }

    /// Write the reserve into the first `RESERVE_LEN` bytes of `output`: its data
    /// in the first `RESERVE_DATA_LEN` bytes, the padding after them left as it was.
    /// Every decimal must fit the 16 bytes it is stored in.
    pub fn pack_into_slice(&self, output: &mut [u8])
        requires
            old(output)@.len() >= RESERVE_LEN,
            reserve_packable(*self),
        ensures
            final(output)@.len() == old(output)@.len(),
            final(output)@.subrange(0, RESERVE_DATA_LEN as int) == reserve_bytes(*self),
            final(output)@.subrange(RESERVE_DATA_LEN as int, old(output)@.len() as int) == old(output)@.subrange(RESERVE_DATA_LEN as int, old(output)@.len() as int),
    {
        let stale: u8 = if self.last_update.stale {
            1
        } else {
            0
        };
        let mut header: Vec<u8> = Vec::new();
        push_byte(&mut header, self.version);
        assert(header@ =~= seq![self.version]);
        push_u64(&mut header, self.last_update.slot);
        push_byte(&mut header, stale);
        push_key(&mut header, &self.lending_market);
        push_key(&mut header, &self.borrow_authorizer);

        let l = &self.liquidity;
        let mut liq: Vec<u8> = Vec::new();
        push_key(&mut liq, &l.mint_pubkey);
        assert(liq@ =~= l.mint_pubkey@);
        push_byte(&mut liq, l.mint_decimals);
        push_key(&mut liq, &l.supply_pubkey);
        push_key(&mut liq, &l.fee_receiver);
        push_key(&mut liq, &l.oracle_pubkey);
        push_u64(&mut liq, l.available_amount);
        push_decimal(&mut liq, l.borrowed_amount_wads);
        push_decimal(&mut liq, l.cumulative_borrow_rate_wads);
        push_decimal(&mut liq, l.market_price);
        push_decimal(&mut liq, l.platform_amount_wads);
        push_byte(&mut liq, l.platform_fees);

        let c = &self.collateral;
        let mut col: Vec<u8> = Vec::new();
        push_key(&mut col, &c.mint_pubkey);
        assert(col@ =~= c.mint_pubkey@);
        push_u64(&mut col, c.mint_total_supply);
        push_key(&mut col, &c.supply_pubkey);

        let g = &self.config;
        let mut cfg: Vec<u8> = Vec::new();
        push_byte(&mut cfg, g.optimal_utilization_rate);
        push_byte(&mut cfg, g.degen_utilization_rate);
        push_byte(&mut cfg, g.loan_to_value_ratio);
        push_byte(&mut cfg, g.liquidation_bonus);
        push_byte(&mut cfg, g.liquidation_threshold);
        push_byte(&mut cfg, g.min_borrow_rate);
        push_byte(&mut cfg, g.optimal_borrow_rate);
        push_byte(&mut cfg, g.degen_borrow_rate);
        push_byte(&mut cfg, g.max_borrow_rate);
        assert(cfg@ =~= seq![
            g.optimal_utilization_rate,
            g.degen_utilization_rate,
            g.loan_to_value_ratio,
            g.liquidation_bonus,
            g.liquidation_threshold,
            g.min_borrow_rate,
            g.optimal_borrow_rate,
            g.degen_borrow_rate,
            g.max_borrow_rate,
        ]);
        push_u64(&mut cfg, g.fees.borrow_fee_wad);
        push_u64(&mut cfg, g.fees.flash_loan_fee_wad);
        push_byte(&mut cfg, g.fees.host_fee_percentage);

        let mut data = header;
        push_bytes(&mut data, liq.as_slice());
        push_bytes(&mut data, col.as_slice());
        push_bytes(&mut data, cfg.as_slice());
        proof {
            lemma_reserve_bytes_len(*self);
            assert(data@ == reserve_bytes(*self));
        }
        write_prefix(output, data.as_slice());
    }

    /// Read a reserve from the first `RESERVE_LEN` bytes of `input`. A version
    /// above `PROGRAM_VERSION`, or a stale flag other than 0 or 1, is
    /// `InvalidAccountData`; otherwise the reserve whose data bytes are the
    /// first `RESERVE_DATA_LEN` bytes of `input`.
    pub fn unpack_from_slice(input: &[u8]) -> (r: Result<Reserve, LendingError>)
        requires
            input@.len() >= RESERVE_LEN,
        ensures
            input@[0] > PROGRAM_VERSION ==> r == Err::<Reserve, LendingError>(
                LendingError::InvalidAccountData,
            ),
            input@[0] <= PROGRAM_VERSION && input@[9] > 1 ==> r == Err::<Reserve, LendingError>(
                LendingError::InvalidAccountData,
            ),
            input@[0] <= PROGRAM_VERSION && input@[9] <= 1 ==> (r matches Ok(v) && reserve_packable(
                v,
            ) && reserve_bytes(v) == input@.subrange(0, RESERVE_DATA_LEN as int)),
    {
        let version = input[0];
        if version > PROGRAM_VERSION {
            return Err(LendingError::InvalidAccountData);
        }
        let stale = match unpack_bool(input[9]) {
            Ok(b) => b,
            Err(e) => {
                return Err(e);
            },
        };
        let r = Reserve {
            version,
            last_update: LastUpdate { slot: read_u64(input, 1), stale },
            lending_market: read_key(input, 10),
            borrow_authorizer: read_key(input, 42),
            liquidity: ReserveLiquidity {
                mint_pubkey: read_key(input, 74),
                mint_decimals: input[106],
                supply_pubkey: read_key(input, 107),
                fee_receiver: read_key(input, 139),
                oracle_pubkey: read_key(input, 171),
                available_amount: read_u64(input, 203),
                borrowed_amount_wads: read_decimal(input, 211),
                cumulative_borrow_rate_wads: read_decimal(input, 227),
                market_price: read_decimal(input, 243),
                platform_amount_wads: read_decimal(input, 259),
                platform_fees: input[275],
            },
            collateral: ReserveCollateral {
                mint_pubkey: read_key(input, 276),
                mint_total_supply: read_u64(input, 308),
                supply_pubkey: read_key(input, 316),
            },
            config: ReserveConfig {
                optimal_utilization_rate: input[348],
                degen_utilization_rate: input[349],
                loan_to_value_ratio: input[350],
                liquidation_bonus: input[351],
                liquidation_threshold: input[352],
                min_borrow_rate: input[353],
                optimal_borrow_rate: input[354],
                degen_borrow_rate: input[355],
                max_borrow_rate: input[356],
                fees: ReserveFees {
                    borrow_fee_wad: read_u64(input, 357),
                    flash_loan_fee_wad: read_u64(input, 365),
                    host_fee_percentage: input[373],
                },
            },
        };
        proof {
            let s = input@;
            lemma_byte(s, 0);
            lemma_byte(s, 9);
            lemma_byte(s, 106);
            lemma_byte(s, 275);
            lemma_byte(s, 373);
            assert(s.subrange(348, 357) =~= seq![
                s[348],
                s[349],
                s[350],
                s[351],
                s[352],
                s[353],
                s[354],
                s[355],
                s[356],
            ]);
            lemma_join(s, 0, 1, 9);
            lemma_join(s, 0, 9, 10);
            lemma_join(s, 0, 10, 42);
            lemma_join(s, 0, 42, 74);
            assert(s.subrange(0, 74) == reserve_header_bytes(r));
            lemma_join(s, 74, 106, 107);
            lemma_join(s, 74, 107, 139);
            lemma_join(s, 74, 139, 171);
            lemma_join(s, 74, 171, 203);
            lemma_join(s, 74, 203, 211);
            lemma_join(s, 74, 211, 227);
            lemma_join(s, 74, 227, 243);
            lemma_join(s, 74, 243, 259);
            lemma_join(s, 74, 259, 275);
            lemma_join(s, 74, 275, 276);
            assert(s.subrange(74, 276) == liquidity_bytes(r.liquidity));
            lemma_join(s, 276, 308, 316);
            lemma_join(s, 276, 316, 348);
            assert(s.subrange(276, 348) == collateral_bytes(r.collateral));
            lemma_join(s, 348, 357, 365);
            lemma_join(s, 348, 365, 373);
            lemma_join(s, 348, 373, 374);
            assert(s.subrange(348, 374) == config_bytes(r.config));
            lemma_join(s, 0, 74, 276);
            lemma_join(s, 0, 276, 348);
            lemma_join(s, 0, 348, 374);
        }
        Ok(r)
    }
}

/// Packing then unpacking gives the reserve back: bytes whose data part is the
/// packing of a reserve with a supported version and decimals that fit are
/// accepted (version and stale flag in range), and the only reserve with
/// fitting decimals that packs to those bytes is the original.
pub proof fn lemma_reserve_pack_roundtrip(r: Reserve, s: Seq<u8>)
    requires
        reserve_packable(r),
        r.version <= PROGRAM_VERSION,
        s.len() >= RESERVE_LEN,
        s.subrange(0, RESERVE_DATA_LEN as int) == reserve_bytes(r),
    ensures
        s[0] <= PROGRAM_VERSION,
        s[9] <= 1,
        forall|v: Reserve|
            reserve_packable(v) && #[trigger] reserve_bytes(v) == s.subrange(
                0,
                RESERVE_DATA_LEN as int,
            ) ==> v == r,
{
    lemma_reserve_bytes_len(r);
    lemma_le_roundtrips();
    let t = s.subrange(0, RESERVE_DATA_LEN as int);
    assert(t[0] == reserve_bytes(r)[0]);
    assert(s[0] == t[0]);
    assert(s[9] == t[9]);
    assert(t[9] == bool_byte(r.last_update.stale));
    assert forall|v: Reserve|
        reserve_packable(v) && #[trigger] reserve_bytes(v) == s.subrange(
            0,
            RESERVE_DATA_LEN as int,
        ) implies v == r by {
        lemma_reserve_bytes_injective(v, r);
    }
}

} // verus!
