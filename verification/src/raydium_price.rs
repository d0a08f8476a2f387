//! The accounts a Raydium pool's price is read from, and the integer part of
//! that price: the pool's token balances.
use vstd::prelude::*;
use vstd::bytes::{spec_u32_to_le_bytes, u128_from_le_bytes, u32_from_le_bytes};
use crate::adapter_common::le32;
use crate::pack::{le128, le64, read_key, read_u64};
use crate::pubkey::Pubkey;

verus! {

/// Which way a zap goes.
#[derive(Clone, Copy, Debug, PartialEq, Eq)]
pub enum ZapDirectionP {
    /// Into the pool
    In,
    /// Out of the pool
    Out,
}

/// Which side of the pool a single-token deposit is priced against.
#[derive(Clone, Copy, Debug, PartialEq, Eq)]
pub enum PoolDirectionP {
    /// The deposit is of the pc token
    Obverse,
    /// The deposit is of the coin token
    Reverse,
}

/// The state of a Serum market, as its account stores it.
#[derive(Clone, Copy, Debug, PartialEq, Eq)]
pub struct SerumMarketStateLayoutV2 {
    /// The stored empty 1
    pub empty_1: u32,
    /// The stored empty 2
    pub empty_2: u8,
    /// The stored account flags
    pub account_flags: u64,
    /// The stored own address
    pub own_address: Pubkey,
    /// The stored vault signer nonce
    pub vault_signer_nonce: u64,
    /// The stored base mint
    pub base_mint: Pubkey,
    /// The stored quote mint
    pub quote_mint: Pubkey,
    /// The stored base vault
    pub base_vault: Pubkey,
    /// The stored base deposits total
    pub base_deposits_total: u64,
    /// The stored base fees accrued
    pub base_fees_accrued: u64,
    /// The stored quote vault
    pub quote_vault: Pubkey,
    /// The stored quote deposits total
    pub quote_deposits_total: u64,
    /// The stored quote fees accrued
    pub quote_fees_accrued: u64,
    /// The stored quote dust threshold
    pub quote_dust_threshold: u64,
    /// The stored request queue
    pub request_queue: Pubkey,
    /// The stored event queue
    pub event_queue: Pubkey,
    /// The stored bids
    pub bids: Pubkey,
    /// The stored asks
    pub asks: Pubkey,
    /// The stored base lot size
    pub base_lot_size: u64,
    /// The stored quote lot size
    pub quote_lot_size: u64,
    /// The stored fee rate bps
    pub fee_rate_bps: u64,
    /// The stored referrer rebates accrued
    pub referrer_rebates_accrued: u64,
    /// The stored empty 3
    pub empty_3: u32,
    /// The stored empty 4
    pub empty_4: u16,
    /// The stored empty 5
    pub empty_5: u8,
}

/// The head of a Serum open-orders account: its flags, market, owner and the
/// base and quote tokens it holds.
#[derive(Clone, Copy, Debug, PartialEq, Eq)]
pub struct SerumOpenOrdersLayoutV2 {
    /// The stored empty 1
    pub empty_1: u32,
    /// The stored empty 2
    pub empty_2: u8,
    /// The stored account flags
    pub account_flags: u64,
    /// The stored market
    pub market: Pubkey,
    /// The stored owner
    pub owner: Pubkey,
    /// The stored base token free
    pub base_token_free: u64,
    /// The stored base token total
    pub base_token_total: u64,
    /// The stored quote token free
    pub quote_token_free: u64,
    /// The stored quote token total
    pub quote_token_total: u64,
    /// The stored free slot bits
    pub free_slot_bits: u128,
    /// The stored is bid bits
    pub is_bid_bits: u128,
}

/// The state of a Raydium staking farm, as its account stores it.
#[derive(Clone, Copy, Debug, PartialEq, Eq)]
pub struct RaydiumStakeInfoLayoutV4 {
    /// The stored discriminator
    pub discriminator: u64,
    /// The stored state
    pub state: u64,
    /// The stored nonce
    pub nonce: u64,
    /// The stored pool lp token account
    pub pool_lp_token_account: Pubkey,
    /// The stored pool reward token account
    pub pool_reward_token_account: Pubkey,
    /// The stored total reward
    pub total_reward: u64,
    /// The stored per share
    pub per_share: u128,
    /// The stored per block
    pub per_block: u64,
    /// The stored option
    pub option: u8,
    /// The stored pool reward token account b
    pub pool_reward_token_account_b: Pubkey,
    /// The stored empty 1
    pub empty_1: u32,
    /// The stored empty 2
    pub empty_2: u16,
    /// The stored empty 3
    pub empty_3: u8,
    /// The stored total reward b
    pub total_reward_b: u64,
    /// The stored per share b
    pub per_share_b: u128,
    /// The stored per block b
    pub per_block_b: u64,
    /// The stored last block
    pub last_block: u64,
    /// The stored owner
    pub owner: Pubkey,
}

/// The state of a Raydium AMM pool, as its account stores it.
#[derive(Clone, Copy, Debug, PartialEq, Eq)]
pub struct PoolLayoutV4 {
    /// The stored status
    pub status: u64,
    /// The stored nonce
    pub nonce: u64,
    /// The stored order num
    pub order_num: u64,
    /// The stored depth
    pub depth: u64,
    /// The stored coin decimals
    pub coin_decimals: u64,
    /// The stored pc decimals
    pub pc_decimals: u64,
    /// The stored state
    pub state: u64,
    /// The stored reset flag
    pub reset_flag: u64,
    /// The stored min size
    pub min_size: u64,
    /// The stored vol max cut ratio
    pub vol_max_cut_ratio: u64,
    /// The stored amount wave ratio
    pub amount_wave_ratio: u64,
    /// The stored coin lot size
    pub coin_lot_size: u64,
    /// The stored pc lot size
    pub pc_lot_size: u64,
    /// The stored min price multiplier
    pub min_price_multiplier: u64,
    /// The stored max price multiplier
    pub max_price_multiplier: u64,
    /// The stored system decimals value
    pub system_decimals_value: u64,
    /// The stored min separate numerator
    pub min_separate_numerator: u64,
    /// The stored min separate denominator
    pub min_separate_denominator: u64,
    /// The stored trade fee numerator
    pub trade_fee_numerator: u64,
    /// The stored trade fee denominator
    pub trade_fee_denominator: u64,
    /// The stored pnl numerator
    pub pnl_numerator: u64,
    /// The stored pnl denominator
    pub pnl_denominator: u64,
    /// The stored swap fee numerator
    pub swap_fee_numerator: u64,
    /// The stored swap fee denominator
    pub swap_fee_denominator: u64,
    /// The stored need take pnl coin
    pub need_take_pnl_coin: u64,
    /// The stored need take pnl pc
    pub need_take_pnl_pc: u64,
    /// The stored total pnl pc
    pub total_pnl_pc: u64,
    /// The stored total pnl coin
    pub total_pnl_coin: u64,
    /// The stored pool total deposit pc
    pub pool_total_deposit_pc: u64,
    /// The stored pool total deposit coin
    pub pool_total_deposit_coin: u64,
    /// The stored swap coin in amount
    pub swap_coin_in_amount: u64,
    /// The stored swap pc out amount
    pub swap_pc_out_amount: u64,
    /// The stored swap coin to pc fee
    pub swap_coin_to_pc_fee: u64,
    /// The stored swap pc in amount
    pub swap_pc_in_amount: u64,
    /// The stored swap coin out amount
    pub swap_coin_out_amount: u64,
    /// The stored swap pc to coin fee
    pub swap_pc_to_coin_fee: u64,
    /// The stored pool coin token account
    pub pool_coin_token_account: Pubkey,
    /// The stored pool pc token account
    pub pool_pc_token_account: Pubkey,
    /// The stored coin mint address
    pub coin_mint_address: Pubkey,
    /// The stored pc mint address
    pub pc_mint_address: Pubkey,
    /// The stored lp mint address
    pub lp_mint_address: Pubkey,
    /// The stored amm open orders
    pub amm_open_orders: Pubkey,
    /// The stored serum market
    pub serum_market: Pubkey,
    /// The stored serum program id
    pub serum_program_id: Pubkey,
    /// The stored amm target orders
    pub amm_target_orders: Pubkey,
    /// The stored pool withdraw queue
    pub pool_withdraw_queue: Pubkey,
    /// The stored pool temp lp token account
    pub pool_temp_lp_token_account: Pubkey,
    /// The stored amm owner
    pub amm_owner: Pubkey,
    /// The stored pnl owner
    pub pnl_owner: Pubkey,
}

/// Bytes of the open-orders head that is read.
pub const OPEN_ORDERS_LEN: usize = 141;

/// Bytes of the pool state.
pub const POOL_INFO_LEN: usize = 704;

/// Read a `u32` from 4 little-endian bytes at `offset`.
fn read_u32(input: &[u8], offset: usize) -> (r: u32)
    requires
        offset + 4 <= input@.len(),
    ensures
        le32(r) == input@.subrange(offset as int, offset + 4),
{
    let n: usize = input.len();
    assert(offset + 4 <= n);
    let r = u32_from_le_bytes(&input[offset..offset + 4]);
    proof {
        vstd::bytes::lemma_auto_spec_u32_to_from_le_bytes();
    }
    r
}

/// Read a `u128` from 16 little-endian bytes at `offset`.
fn read_u128(input: &[u8], offset: usize) -> (r: u128)
    requires
        offset + 16 <= input@.len(),
    ensures
        le128(r as nat) == input@.subrange(offset as int, offset + 16),
{
    let n: usize = input.len();
    assert(offset + 16 <= n);
    let r = u128_from_le_bytes(&input[offset..offset + 16]);
    proof {
        vstd::bytes::lemma_auto_spec_u128_to_from_le_bytes();
    }
    r
}

/// The head of an open-orders account, read field by field from its
/// little-endian bytes.
#[verifier::rlimit(40)]
pub fn decode_open_orders(open_orders: &[u8]) -> (r: SerumOpenOrdersLayoutV2)
    requires
        OPEN_ORDERS_LEN <= open_orders@.len(),
    ensures
        le32(r.empty_1) == open_orders@.subrange(0, 4),
        r.empty_2 == open_orders@[4],
        le64(r.account_flags) == open_orders@.subrange(5, 13),
        r.market@ == open_orders@.subrange(13, 45),
        r.owner@ == open_orders@.subrange(45, 77),
        le64(r.base_token_free) == open_orders@.subrange(77, 85),
        le64(r.base_token_total) == open_orders@.subrange(85, 93),
        le64(r.quote_token_free) == open_orders@.subrange(93, 101),
        le64(r.quote_token_total) == open_orders@.subrange(101, 109),
        le128(r.free_slot_bits as nat) == open_orders@.subrange(109, 125),
        le128(r.is_bid_bits as nat) == open_orders@.subrange(125, 141),
{
    SerumOpenOrdersLayoutV2 {
        empty_1: read_u32(open_orders, 0),
        empty_2: open_orders[4],
        account_flags: read_u64(open_orders, 5),
        market: read_key(open_orders, 13),
        owner: read_key(open_orders, 45),
        base_token_free: read_u64(open_orders, 77),
        base_token_total: read_u64(open_orders, 85),
        quote_token_free: read_u64(open_orders, 93),
        quote_token_total: read_u64(open_orders, 101),
        free_slot_bits: read_u128(open_orders, 109),
        is_bid_bits: read_u128(open_orders, 125),
    }
}

/// The state of a pool, read field by field from its little-endian bytes.
#[verifier::rlimit(40)]
pub fn decode_pool_info(pool_info: &[u8]) -> (r: PoolLayoutV4)
    requires
        POOL_INFO_LEN <= pool_info@.len(),
    ensures
        le64(r.status) == pool_info@.subrange(0, 8),
        le64(r.nonce) == pool_info@.subrange(8, 16),
        le64(r.order_num) == pool_info@.subrange(16, 24),
        le64(r.depth) == pool_info@.subrange(24, 32),
        le64(r.coin_decimals) == pool_info@.subrange(32, 40),
        le64(r.pc_decimals) == pool_info@.subrange(40, 48),
        le64(r.state) == pool_info@.subrange(48, 56),
        le64(r.reset_flag) == pool_info@.subrange(56, 64),
        le64(r.min_size) == pool_info@.subrange(64, 72),
        le64(r.vol_max_cut_ratio) == pool_info@.subrange(72, 80),
        le64(r.amount_wave_ratio) == pool_info@.subrange(80, 88),
        le64(r.coin_lot_size) == pool_info@.subrange(88, 96),
        le64(r.pc_lot_size) == pool_info@.subrange(96, 104),
        le64(r.min_price_multiplier) == pool_info@.subrange(104, 112),
        le64(r.max_price_multiplier) == pool_info@.subrange(112, 120),
        le64(r.system_decimals_value) == pool_info@.subrange(120, 128),
        le64(r.min_separate_numerator) == pool_info@.subrange(128, 136),
        le64(r.min_separate_denominator) == pool_info@.subrange(136, 144),
        le64(r.trade_fee_numerator) == pool_info@.subrange(144, 152),
        le64(r.trade_fee_denominator) == pool_info@.subrange(152, 160),
        le64(r.pnl_numerator) == pool_info@.subrange(160, 168),
        le64(r.pnl_denominator) == pool_info@.subrange(168, 176),
        le64(r.swap_fee_numerator) == pool_info@.subrange(176, 184),
        le64(r.swap_fee_denominator) == pool_info@.subrange(184, 192),
        le64(r.need_take_pnl_coin) == pool_info@.subrange(192, 200),
        le64(r.need_take_pnl_pc) == pool_info@.subrange(200, 208),
        le64(r.total_pnl_pc) == pool_info@.subrange(208, 216),
        le64(r.total_pnl_coin) == pool_info@.subrange(216, 224),
        le64(r.pool_total_deposit_pc) == pool_info@.subrange(224, 232),
        le64(r.pool_total_deposit_coin) == pool_info@.subrange(232, 240),
        le64(r.swap_coin_in_amount) == pool_info@.subrange(240, 248),
        le64(r.swap_pc_out_amount) == pool_info@.subrange(248, 256),
        le64(r.swap_coin_to_pc_fee) == pool_info@.subrange(256, 264),
        le64(r.swap_pc_in_amount) == pool_info@.subrange(264, 272),
        le64(r.swap_coin_out_amount) == pool_info@.subrange(272, 280),
        le64(r.swap_pc_to_coin_fee) == pool_info@.subrange(280, 288),
        r.pool_coin_token_account@ == pool_info@.subrange(288, 320),
        r.pool_pc_token_account@ == pool_info@.subrange(320, 352),
        r.coin_mint_address@ == pool_info@.subrange(352, 384),
        r.pc_mint_address@ == pool_info@.subrange(384, 416),
        r.lp_mint_address@ == pool_info@.subrange(416, 448),
        r.amm_open_orders@ == pool_info@.subrange(448, 480),
        r.serum_market@ == pool_info@.subrange(480, 512),
        r.serum_program_id@ == pool_info@.subrange(512, 544),
        r.amm_target_orders@ == pool_info@.subrange(544, 576),
        r.pool_withdraw_queue@ == pool_info@.subrange(576, 608),
        r.pool_temp_lp_token_account@ == pool_info@.subrange(608, 640),
        r.amm_owner@ == pool_info@.subrange(640, 672),
        r.pnl_owner@ == pool_info@.subrange(672, 704),
{
    PoolLayoutV4 {
        status: read_u64(pool_info, 0),
        nonce: read_u64(pool_info, 8),
        order_num: read_u64(pool_info, 16),
        depth: read_u64(pool_info, 24),
        coin_decimals: read_u64(pool_info, 32),
        pc_decimals: read_u64(pool_info, 40),
        state: read_u64(pool_info, 48),
        reset_flag: read_u64(pool_info, 56),
        min_size: read_u64(pool_info, 64),
        vol_max_cut_ratio: read_u64(pool_info, 72),
        amount_wave_ratio: read_u64(pool_info, 80),
        coin_lot_size: read_u64(pool_info, 88),
        pc_lot_size: read_u64(pool_info, 96),
        min_price_multiplier: read_u64(pool_info, 104),
        max_price_multiplier: read_u64(pool_info, 112),
        system_decimals_value: read_u64(pool_info, 120),
        min_separate_numerator: read_u64(pool_info, 128),
        min_separate_denominator: read_u64(pool_info, 136),
        trade_fee_numerator: read_u64(pool_info, 144),
        trade_fee_denominator: read_u64(pool_info, 152),
        pnl_numerator: read_u64(pool_info, 160),
        pnl_denominator: read_u64(pool_info, 168),
        swap_fee_numerator: read_u64(pool_info, 176),
        swap_fee_denominator: read_u64(pool_info, 184),
        need_take_pnl_coin: read_u64(pool_info, 192),
        need_take_pnl_pc: read_u64(pool_info, 200),
        total_pnl_pc: read_u64(pool_info, 208),
        total_pnl_coin: read_u64(pool_info, 216),
        pool_total_deposit_pc: read_u64(pool_info, 224),
        pool_total_deposit_coin: read_u64(pool_info, 232),
        swap_coin_in_amount: read_u64(pool_info, 240),
        swap_pc_out_amount: read_u64(pool_info, 248),
        swap_coin_to_pc_fee: read_u64(pool_info, 256),
        swap_pc_in_amount: read_u64(pool_info, 264),
        swap_coin_out_amount: read_u64(pool_info, 272),
        swap_pc_to_coin_fee: read_u64(pool_info, 280),
        pool_coin_token_account: read_key(pool_info, 288),
        pool_pc_token_account: read_key(pool_info, 320),
        coin_mint_address: read_key(pool_info, 352),
        pc_mint_address: read_key(pool_info, 384),
        lp_mint_address: read_key(pool_info, 416),
        amm_open_orders: read_key(pool_info, 448),
        serum_market: read_key(pool_info, 480),
        serum_program_id: read_key(pool_info, 512),
        amm_target_orders: read_key(pool_info, 544),
        pool_withdraw_queue: read_key(pool_info, 576),
        pool_temp_lp_token_account: read_key(pool_info, 608),
        amm_owner: read_key(pool_info, 640),
        pnl_owner: read_key(pool_info, 672),
    }
}

/// A pool's balance of one token: what its open orders hold in total, plus
/// its vault, less the profit it has yet to take.
pub open spec fn pool_balance(orders_total: u64, vault_amount: u64, need_take_pnl: u64) -> int {
    orders_total + vault_amount - need_take_pnl
}

/// The pool's coin and pc balances, from its open orders, its state and the
/// amounts of its coin and pc vaults. The sum of orders and vault must fit a
/// `u64` and cover the profit yet to be taken.
pub fn pool_balances(
    open_orders: &SerumOpenOrdersLayoutV2,
    pool_info: &PoolLayoutV4,
    pool_coin_amount: u64,
    pool_pc_amount: u64,
) -> (r: (u64, u64))
    requires
        open_orders.base_token_total + pool_coin_amount <= u64::MAX,
        pool_info.need_take_pnl_coin <= open_orders.base_token_total + pool_coin_amount,
        open_orders.quote_token_total + pool_pc_amount <= u64::MAX,
        pool_info.need_take_pnl_pc <= open_orders.quote_token_total + pool_pc_amount,
    ensures
        r.0 == pool_balance(
            open_orders.base_token_total,
            pool_coin_amount,
            pool_info.need_take_pnl_coin,
        ),
        r.1 == pool_balance(
            open_orders.quote_token_total,
            pool_pc_amount,
            pool_info.need_take_pnl_pc,
        ),
{
    let coin_balance = open_orders.base_token_total + pool_coin_amount - pool_info.need_take_pnl_coin;
    let pc_balance = open_orders.quote_token_total + pool_pc_amount - pool_info.need_take_pnl_pc;
    (coin_balance, pc_balance)
}

} // verus!
