use defi_adapters::raydium_price::{
    decode_open_orders, decode_pool_info, pool_balances, OPEN_ORDERS_LEN, POOL_INFO_LEN,
};

fn open_orders_bytes(base_total: u64, quote_total: u64) -> Vec<u8> {
    let mut b = Vec::new();
    b.extend_from_slice(&7u32.to_le_bytes());
    b.push(9);
    b.extend_from_slice(&3u64.to_le_bytes());
    b.extend_from_slice(&[11u8; 32]);
    b.extend_from_slice(&[12u8; 32]);
    b.extend_from_slice(&100u64.to_le_bytes());
    b.extend_from_slice(&base_total.to_le_bytes());
    b.extend_from_slice(&200u64.to_le_bytes());
    b.extend_from_slice(&quote_total.to_le_bytes());
    b.extend_from_slice(&(1u128 << 100).to_le_bytes());
    b.extend_from_slice(&5u128.to_le_bytes());
    b.extend_from_slice(&[0xAA; 40]);
    b
}

fn pool_info_bytes(pnl_coin: u64, pnl_pc: u64) -> Vec<u8> {
    let mut b = Vec::new();
    for i in 0..36u64 {
        let v = match i {
            24 => pnl_coin,
            25 => pnl_pc,
            _ => i + 1000,
        };
        b.extend_from_slice(&v.to_le_bytes());
    }
    for k in 0..13u8 {
        b.extend_from_slice(&[k + 50; 32]);
    }
    b
}

#[test]
fn open_orders_fields_come_from_their_offsets() {
    let bytes = open_orders_bytes(5_000, 7_000);
    assert!(bytes.len() > OPEN_ORDERS_LEN);
    let o = decode_open_orders(&bytes);
    assert_eq!(o.empty_1, 7);
    assert_eq!(o.empty_2, 9);
    assert_eq!(o.account_flags, 3);
    assert_eq!(o.market.0, [11u8; 32]);
    assert_eq!(o.owner.0, [12u8; 32]);
    assert_eq!(o.base_token_free, 100);
    assert_eq!(o.base_token_total, 5_000);
    assert_eq!(o.quote_token_free, 200);
    assert_eq!(o.quote_token_total, 7_000);
    assert_eq!(o.free_slot_bits, 1u128 << 100);
    assert_eq!(o.is_bid_bits, 5);
}

#[test]
fn pool_info_fields_come_from_their_offsets() {
    let bytes = pool_info_bytes(40, 60);
    assert_eq!(bytes.len(), POOL_INFO_LEN);
    let p = decode_pool_info(&bytes);
    assert_eq!(p.status, 1000);
    assert_eq!(p.trade_fee_numerator, 1018);
    assert_eq!(p.need_take_pnl_coin, 40);
    assert_eq!(p.need_take_pnl_pc, 60);
    assert_eq!(p.swap_pc_to_coin_fee, 1035);
    assert_eq!(p.pool_coin_token_account.0, [50u8; 32]);
    assert_eq!(p.pnl_owner.0, [62u8; 32]);
}

#[test]
fn pool_balances_add_vaults_and_drop_pending_profit() {
    let o = decode_open_orders(&open_orders_bytes(5_000, 7_000));
    let p = decode_pool_info(&pool_info_bytes(40, 60));
    assert_eq!(pool_balances(&o, &p, 1_000, 3_000), (5_960, 9_940));
    let none = decode_pool_info(&pool_info_bytes(0, 0));
    assert_eq!(pool_balances(&o, &none, 0, 0), (5_000, 7_000));
}
