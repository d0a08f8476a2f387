use defi_adapters::adapter_common::{
    account_info_array, encode_amounts, encode_output, load_all_accounts, load_remaining_accounts,
    output_amount, picked_infos, slot_is_readable, read_bool_at, read_u64_at, sighash, AccountInfos, AccountMeta,
    Direction, ErrorCode, InputError, OutputSlot, Plan, RemainingAccount, TokenAccountAndBalance,
};
use defi_adapters::pubkey::Pubkey;
use defi_adapters::{
    adapter_francium, adapter_friktion, adapter_genopets_staking, adapter_jupiter, adapter_larix,
    adapter_lido, adapter_lifinity, adapter_marinade, adapter_nft_finance, adapter_orca,
    adapter_raydium, adapter_saber, adapter_solend, adapter_tulip,
};

fn key(b: u8) -> Pubkey {
    Pubkey([b; 32])
}

fn accounts(n: usize) -> Vec<RemainingAccount> {
    (0..n)
        .map(|i| RemainingAccount { key: key(i as u8), is_signer: i % 3 == 0, is_writable: i % 2 == 0 })
        .collect()
}

fn program() -> Pubkey {
    key(200)
}

fn only_call(p: &Plan) -> &defi_adapters::adapter_common::Instruction {
    assert_eq!(p.invocations.len(), 1);
    assert_eq!(p.invocations[0].infos, AccountInfos::All);
    &p.invocations[0].instruction
}

fn le(x: u64) -> Vec<u8> {
    x.to_le_bytes().to_vec()
}

#[test]
fn sighash_is_the_anchor_selector() {
    assert_eq!(sighash("global", "deposit"), [242, 35, 198, 137, 82, 225, 242, 182]);
    assert_ne!(sighash("global", "deposit"), sighash("global", "withdraw"));
}

#[test]
fn balance_change_either_way() {
    assert_eq!(TokenAccountAndBalance::new(3, 10).get_balance_change(15), 5);
    assert_eq!(TokenAccountAndBalance::new(3, 15).get_balance_change(10), 5);
    assert_eq!(TokenAccountAndBalance::new(3, 7).get_balance_change(7), 0);
    for (a, b) in [(0u64, u64::MAX), (5, 9), (100, 1)] {
        assert_eq!(
            TokenAccountAndBalance::new(0, a).get_balance_change(b),
            TokenAccountAndBalance::new(0, b).get_balance_change(a)
        );
    }
}

#[test]
fn output_amounts_by_direction() {
    assert_eq!(output_amount(OutputSlot::Zero, 1, 2), 0);
    assert_eq!(output_amount(OutputSlot::Amount(1000), 1, 2), 1000);
    assert_eq!(output_amount(OutputSlot::Measured(0, Direction::Change), 9, 2), 7);
    assert_eq!(output_amount(OutputSlot::Measured(0, Direction::Gain), 2, 9), 7);
    assert_eq!(output_amount(OutputSlot::Measured(0, Direction::Loss), 9, 2), 7);
    assert_eq!(output_amount(OutputSlot::Measured(0, Direction::Reached), 2, 9), 9);
}

#[test]
fn outputs_are_four_little_endian_amounts() {
    let bytes = encode_output(1, 2, 3, 4);
    assert_eq!(bytes.len(), 32);
    assert_eq!(bytes[0..8], le(1)[..]);
    assert_eq!(bytes[24..32], le(4)[..]);
    assert_eq!(encode_amounts(&[5]), encode_output(5, 0, 0, 0));
}

#[test]
fn reading_input_fields() {
    let input = [1u8, 0, 0, 0, 0, 0, 0, 0, 1, 2];
    assert_eq!(read_u64_at(&input, 0), Ok(1));
    assert_eq!(read_u64_at(&input, 3), Err(InputError::TooShort));
    assert_eq!(read_bool_at(&input, 8), Ok(true));
    assert_eq!(read_bool_at(&input, 9), Err(InputError::InvalidBool));
    assert_eq!(read_bool_at(&input, 10), Err(InputError::TooShort));
}

#[test]
fn remaining_accounts_keep_their_flags() {
    let acc = accounts(4);
    let metas = load_remaining_accounts(&acc, &[3, 0, 3]);
    assert_eq!(
        metas,
        vec![
            AccountMeta { pubkey: key(3), is_signer: true, is_writable: false },
            AccountMeta { pubkey: key(0), is_signer: true, is_writable: true },
            AccountMeta { pubkey: key(3), is_signer: true, is_writable: false },
        ]
    );
    assert_eq!(load_all_accounts(&acc).len(), 4);
    assert_eq!(load_all_accounts(&acc)[1], AccountMeta { pubkey: key(1), is_signer: false, is_writable: false });
}

#[test]
fn account_info_array_pads_with_the_first_account() {
    let positions = account_info_array(10, &[4, 2, 9]);
    assert_eq!(&positions[0..3], &[4, 2, 9]);
    assert!(positions[3..].iter().all(|p| *p == 0));
    assert_eq!(picked_infos(10, &[4, 2]), AccountInfos::Picked(vec![4, 2]));
}

#[test]
fn error_messages() {
    assert_eq!(ErrorCode::UnsupportedAction.message(), "Unsupported Action");
    assert_eq!(ErrorCode::UnsupportedVaultProtocol.message(), "Unsupported Vault Protocol");
}

#[test]
fn input_decoding() {
    assert_eq!(adapter_francium::SupplyInputWrapper::decode(&le(77)), Ok(adapter_francium::SupplyInputWrapper { token_in_amount: 77 }));
    assert_eq!(adapter_francium::SupplyInputWrapper::decode(&[1, 2, 3]), Err(InputError::TooShort));
    let mut stake = le(5);
    stake.push(6);
    stake.push(1);
    assert_eq!(
        adapter_genopets_staking::StakeInputWrapper::decode(&stake),
        Ok(adapter_genopets_staking::StakeInputWrapper { amount: 5, lock_for_months: 6, as_sgene: true })
    );
    stake[9] = 2;
    assert_eq!(adapter_genopets_staking::StakeInputWrapper::decode(&stake), Err(InputError::InvalidBool));
    let mut lido = vec![23u8];
    lido.extend(le(9));
    lido.extend(4u32.to_le_bytes());
    assert_eq!(
        adapter_lido::WithdrawInputWrapper::decode(&lido),
        Ok(adapter_lido::WithdrawInputWrapper { instruction: 23, amount: 9, validator_index: 4 })
    );
}

#[test]
fn output_wrappers_as_tuples_and_bytes() {
    let w = adapter_francium::SupplyOutputWrapper { reserve_out_amount: 1, supply_in_amount: 2, dummy_3: 0, dummy_4: 0 };
    let t: adapter_francium::SupplyOutputTuple = w.into();
    assert_eq!(t, (1, 2, 0, 0));
    assert_eq!(w.encode(), encode_output(1, 2, 0, 0));
}

#[test]
fn francium_supply_plan() {
    let acc = accounts(10);
    let p = adapter_francium::supply(program(), &acc, adapter_francium::SupplyInputWrapper { token_in_amount: 500 });
    let ix = only_call(&p);
    assert_eq!(ix.program_id, program());
    let mut data = vec![4u8];
    data.extend(le(500));
    assert_eq!(ix.data, data);
    assert_eq!(ix.accounts.len(), 10);
    assert_eq!(ix.accounts[7], AccountMeta { pubkey: key(7), is_signer: true, is_writable: true });
    assert_eq!(ix.accounts[8], AccountMeta { pubkey: key(8), is_signer: false, is_writable: false });
    assert_eq!(
        p.outputs,
        Some(vec![
            OutputSlot::Measured(1, Direction::Change),
            OutputSlot::Measured(0, Direction::Change),
            OutputSlot::Zero,
            OutputSlot::Zero
        ])
    );
}

#[test]
fn francium_stake_sends_zero_amount() {
    let acc = accounts(12);
    let p = adapter_francium::stake(program(), &acc, adapter_francium::StakeInputWrapper {});
    assert_eq!(only_call(&p).data, vec![3, 0, 0, 0, 0, 0, 0, 0, 0]);
}

#[test]
fn larix_repay_magic_amount_repays_everything() {
    let acc = accounts(7);
    let p = adapter_larix::repay(program(), &acc, adapter_larix::RepayInputWrapper { repay_amount: adapter_larix::MAGIC_NUMBER });
    let mut data = vec![11u8];
    data.extend(le(u64::MAX));
    assert_eq!(only_call(&p).data, data);
    let p = adapter_larix::repay(program(), &acc, adapter_larix::RepayInputWrapper { repay_amount: 12 });
    let mut data = vec![11u8];
    data.extend(le(12));
    assert_eq!(only_call(&p).data, data);
}

#[test]
fn larix_unsupply_and_collateralize() {
    let acc = accounts(9);
    let p = adapter_larix::unsupply(program(), &acc, adapter_larix::UnsupplyInputWrapper {});
    assert_eq!(only_call(&p).data, vec![5, 255, 255, 255, 255, 255, 255, 255, 255]);
    let acc = accounts(11);
    let p = adapter_larix::collateralize(program(), &acc, adapter_larix::CollateralizeInputWrapper {});
    let ix = only_call(&p);
    // Nine fixed slots, then the accounts from 8 on, read-only.
    assert_eq!(ix.accounts.len(), 12);
    assert_eq!(ix.accounts[11], AccountMeta { pubkey: key(10), is_signer: false, is_writable: false });
    let acc = accounts(7);
    let p = adapter_larix::harvest(program(), &acc, adapter_larix::HarvestInputWrapper {});
    assert_eq!(only_call(&p).data, vec![20]);
    assert_eq!(only_call(&p).accounts.len(), 7);
    let p = adapter_larix::claim_collateral_reward(program(), &acc, adapter_larix::ClaimCollateralRewardInputWrapper {});
    assert_eq!(only_call(&p).data, vec![21]);
}

#[test]
fn friktion_selectors() {
    let acc = accounts(17);
    let p = adapter_friktion::initiate_deposit(program(), &acc, adapter_friktion::InitiateDepositInputWrapper { deposit_amount: 3 });
    let ix = only_call(&p);
    let mut data = sighash("global", "deposit").to_vec();
    data.extend(le(3));
    assert_eq!(ix.data, data);
    // The first account is given three times.
    assert_eq!(ix.accounts[0].pubkey, key(0));
    assert_eq!(ix.accounts[1], AccountMeta { pubkey: key(0), is_signer: true, is_writable: false });
    assert_eq!(ix.accounts[2], AccountMeta { pubkey: key(0), is_signer: false, is_writable: false });
    let p = adapter_friktion::finalize_deposit(program(), &accounts(10), adapter_friktion::FinalizeDepositInputWrapper {});
    assert_eq!(only_call(&p).data, sighash("global", "claim_pending_deposit").to_vec());
}

#[test]
fn genopets_unstake_branches() {
    let acc = accounts(18);
    let p = adapter_genopets_staking::unstake(program(), &acc, adapter_genopets_staking::UnstakeInputWrapper { as_sgene: true });
    assert_eq!(only_call(&p).data, sighash("global", "withdraw_as_sgene").to_vec());
    assert_eq!(only_call(&p).accounts.len(), 18);
    assert_eq!(p.outputs.as_ref().unwrap()[0], OutputSlot::Measured(4, Direction::Change));
    let p = adapter_genopets_staking::unstake(program(), &acc, adapter_genopets_staking::UnstakeInputWrapper { as_sgene: false });
    let mut data = sighash("global", "withdraw").to_vec();
    data.push(0);
    assert_eq!(only_call(&p).data, data);
    assert_eq!(only_call(&p).accounts.len(), 11);
    assert_eq!(p.outputs.as_ref().unwrap()[0], OutputSlot::Measured(5, Direction::Change));
    let p = adapter_genopets_staking::stake(
        program(),
        &accounts(16),
        adapter_genopets_staking::StakeInputWrapper { amount: 8, lock_for_months: 3, as_sgene: true },
    );
    let mut data = sighash("global", "stake").to_vec();
    data.extend(le(8));
    data.push(3);
    data.push(1);
    assert_eq!(only_call(&p).data, data);
}

#[test]
fn jupiter_route_bytes() {
    let acc = accounts(5);
    let mut config = [0u8; 30];
    for i in 0..30 {
        config[i] = i as u8 + 100;
    }
    config[0] = 3;
    let input = adapter_jupiter::SwapInputWrapper { in_amount: 1, out_amount: 2, slippage_bps: 50, swap_config: config };
    let p = adapter_jupiter::swap(program(), &acc, input);
    let mut data = sighash("global", "route").to_vec();
    data.extend([101, 102, 103]);
    data.extend(le(1));
    data.extend(le(2));
    data.extend(50u16.to_le_bytes());
    data.push(0);
    assert_eq!(only_call(&p).data, data);
    assert_eq!(only_call(&p).accounts.len(), 5);
    config[0] = 0;
    let p = adapter_jupiter::swap(program(), &acc, adapter_jupiter::SwapInputWrapper { swap_config: config, ..input });
    assert_eq!(only_call(&p).data.len(), 8 + 30 + 8 + 8 + 2 + 1);
    config[0] = 200;
    let p = adapter_jupiter::swap(program(), &acc, adapter_jupiter::SwapInputWrapper { swap_config: config, ..input });
    assert_eq!(only_call(&p).data.len(), 8 + 29 + 8 + 8 + 2 + 1);
}

#[test]
fn lido_deposit_and_withdraw() {
    let acc = accounts(13);
    let p = adapter_lido::deposit(program(), &acc, &le(42));
    let mut data = vec![1u8];
    data.extend(le(42));
    assert_eq!(only_call(&p).data, data);
    let mut raw = vec![23u8];
    raw.extend(le(9));
    raw.extend(0u32.to_le_bytes());
    let decoded = adapter_lido::WithdrawInputWrapper::decode(&raw).unwrap();
    let p = adapter_lido::withdraw(program(), &acc, &raw, decoded);
    assert_eq!(p.invocations.len(), 2);
    assert_eq!(p.invocations[0].instruction.data, raw);
    assert_eq!(p.invocations[0].instruction.accounts.len(), 13);
    let deactivate = &p.invocations[1].instruction;
    assert_eq!(deactivate.data, vec![5, 0, 0, 0]);
    assert_eq!(deactivate.accounts[0], AccountMeta { pubkey: key(1), is_signer: false, is_writable: true });
    assert_eq!(deactivate.accounts[2], AccountMeta { pubkey: key(6), is_signer: true, is_writable: false });
    assert_eq!(
        deactivate.program_id.0,
        [
            6u8, 161, 216, 23, 145, 55, 84, 42, 152, 52, 55, 189, 254, 42, 122, 178, 85, 127, 83, 92, 138, 120,
            114, 43, 104, 164, 157, 192, 0, 0, 0, 0
        ]
    );
    assert_eq!(
        deactivate.accounts[1],
        AccountMeta {
            pubkey: Pubkey([
                6u8, 167, 213, 23, 24, 199, 116, 201, 40, 86, 99, 152, 105, 29, 94, 182, 139, 94, 184, 163, 155,
                75, 109, 92, 115, 85, 91, 33, 0, 0, 0, 0
            ]),
            is_signer: false,
            is_writable: false
        }
    );
    assert_eq!(p.invocations[1].infos, AccountInfos::Picked(vec![1]));
    assert_eq!(p.outputs, None);
}

#[test]
fn lifinity_plans() {
    let acc = accounts(13);
    let p = adapter_lifinity::swap(program(), &acc, adapter_lifinity::SwapInputWrapper { swap_in_amount: 10, swap_min_out_amount: 9 });
    let mut data = sighash("global", "swap").to_vec();
    data.extend(le(10));
    data.extend(le(9));
    assert_eq!(only_call(&p).data, data);
    let input = adapter_lifinity::AddLiquidityInputWrapper { token_in_amount: 100, pool_direction: 1 };
    let p = adapter_lifinity::add_liquidity(program(), &acc, input, 250, 7).unwrap();
    let mut data = sighash("global", "deposit_all_token_types").to_vec();
    data.extend(le(7));
    data.extend(le(100));
    data.extend(le(250));
    assert_eq!(only_call(&p).data, data);
    let bad = adapter_lifinity::AddLiquidityInputWrapper { token_in_amount: 100, pool_direction: 2 };
    assert_eq!(adapter_lifinity::add_liquidity(program(), &acc, bad, 250, 7).err(), Some(ErrorCode::UnsupportedPoolDirection));
    let p = adapter_lifinity::remove_liquidity(program(), &acc, adapter_lifinity::RemoveLiquidityInputWrapper { lp_amount: 5, pool_direction: 0 }, 1, 2);
    assert_eq!(p.outputs.as_ref().unwrap()[0], OutputSlot::Measured(7, Direction::Reached));
}

#[test]
fn marinade_and_nft_finance() {
    let acc = accounts(13);
    let p = adapter_marinade::withdraw(program(), &acc, adapter_marinade::WithdrawInputWrapper { withdraw_amount: 4 });
    let mut data = sighash("global", "liquid_unstake").to_vec();
    data.extend(le(4));
    assert_eq!(only_call(&p).data, data);
    assert_eq!(only_call(&p).accounts.len(), 11);
    let p = adapter_nft_finance::lock_nft(program(), &acc, adapter_nft_finance::LockNftInputWrapper {});
    assert_eq!(only_call(&p).data, sighash("global", "stake").to_vec());
    assert_eq!(p.outputs.as_ref().unwrap()[0], OutputSlot::Measured(7, Direction::Gain));
}

#[test]
fn orca_remove_liquidity_actions() {
    let acc = accounts(11);
    let p = adapter_orca::remove_liquidity(program(), &acc, adapter_orca::RemoveLiquidityInputWrapper { lp_amount: 6, action: 2 }).unwrap();
    let mut data = vec![3u8];
    data.extend(le(6));
    data.extend(le(0));
    data.extend(le(0));
    assert_eq!(only_call(&p).data, data);
    let p = adapter_orca::remove_liquidity(program(), &acc, adapter_orca::RemoveLiquidityInputWrapper { lp_amount: 6, action: 3 }).unwrap();
    let mut data = vec![5u8];
    data.extend(le(1));
    data.extend(le(6));
    assert_eq!(only_call(&p).data, data);
    assert_eq!(p.outputs.as_ref().unwrap()[1], OutputSlot::Zero);
    assert_eq!(
        adapter_orca::remove_liquidity(program(), &acc, adapter_orca::RemoveLiquidityInputWrapper { lp_amount: 6, action: 4 }).err(),
        Some(ErrorCode::UnsupportedAction)
    );
}

#[test]
fn raydium_versions() {
    let acc = accounts(12);
    let p = adapter_raydium::stake(program(), &acc, adapter_raydium::StakeInputWrapper { lp_amount: 5, version: 3 }).unwrap();
    assert_eq!(only_call(&p).data[0], 10);
    assert_eq!(only_call(&p).accounts.len(), 12);
    let p = adapter_raydium::unstake(program(), &accounts(10), adapter_raydium::UnstakeInputWrapper { share_amount: 5, version: 5 }).unwrap();
    assert_eq!(only_call(&p).data[0], 12);
    assert_eq!(only_call(&p).accounts.len(), 10);
    assert_eq!(
        adapter_raydium::stake(program(), &acc, adapter_raydium::StakeInputWrapper { lp_amount: 5, version: 4 }).err(),
        Some(ErrorCode::UnsupportedVersion)
    );
    let p = adapter_raydium::harvest(program(), &acc, adapter_raydium::HarvestInputWrapper { version: 5 }).unwrap();
    let mut data = vec![12u8];
    data.extend(le(0));
    assert_eq!(only_call(&p).data, data);
    assert_eq!(p.outputs.as_ref().unwrap()[1], OutputSlot::Measured(10, Direction::Gain));
    let p = adapter_raydium::add_liquidity(
        program(),
        &accounts(14),
        adapter_raydium::AddLiquidityInputWrapper { token_in_amount: 100, pool_direction: 0 },
        33,
    )
    .unwrap();
    let mut data = vec![3u8];
    data.extend(le(33));
    data.extend(le(100));
    data.extend(le(0));
    assert_eq!(only_call(&p).data, data);
}

#[test]
fn saber_plans() {
    let acc = accounts(12);
    let p = adapter_saber::add_liquidity(program(), &acc, adapter_saber::AddLiquidityInputWrapper { token_in_amount: 9, pool_direction: 1 }).unwrap();
    let mut data = vec![2u8];
    data.extend(le(9));
    data.extend(le(0));
    data.extend(le(0));
    assert_eq!(only_call(&p).data, data);
    assert_eq!(p.outputs.as_ref().unwrap()[1], OutputSlot::Amount(1000));
    let p = adapter_saber::remove_liquidity(program(), &acc, adapter_saber::RemoveLiquidityInputWrapper { lp_amount: 4, action: 3 }).unwrap();
    assert_eq!(only_call(&p).data[0], 4);
    assert_eq!(only_call(&p).accounts.len(), 10);
    let p = adapter_saber::unstake(program(), &acc, adapter_saber::UnstakeInputWrapper { share_amount: 8 });
    assert_eq!(p.outputs.as_ref().unwrap()[0], OutputSlot::Amount(8));
}

#[test]
fn solend_repay_measures_a_loss() {
    let acc = accounts(8);
    let p = adapter_solend::repay(program(), &acc, adapter_solend::RepayInputWrapper { repay_amount: 3 });
    let mut data = vec![11u8];
    data.extend(le(3));
    assert_eq!(only_call(&p).data, data);
    assert_eq!(p.outputs.as_ref().unwrap()[0], OutputSlot::Measured(0, Direction::Loss));
}

#[test]
fn tulip_deposit_and_unsupply() {
    let acc = accounts(19);
    let input = adapter_tulip::DepositInputWrapper { lp_or_token_a_amount: 10, token_b_amount: 20, farm_type_0: 2, farm_type_1: 5 };
    let p = adapter_tulip::deposit(program(), &acc, input).unwrap();
    let mut data = sighash("global", "orca_add_liq_issue_shares").to_vec();
    data.extend(le(10));
    data.extend(le(20));
    data.extend(le(2));
    data.extend(le(5));
    assert_eq!(only_call(&p).data, data);
    assert_eq!(only_call(&p).accounts.len(), 19);
    let bad = adapter_tulip::DepositInputWrapper { farm_type_0: 1, ..input };
    assert_eq!(adapter_tulip::deposit(program(), &acc, bad).err(), Some(ErrorCode::UnsupportedVaultProtocol));
    // Redeeming more than the account holds redeems what it holds.
    let p = adapter_tulip::unsupply(program(), &acc, adapter_tulip::UnsupplyInputWrapper { reserved_amount: 50 }, 30);
    let mut data = vec![5u8];
    data.extend(le(30));
    assert_eq!(only_call(&p).data, data);
    let p = adapter_tulip::unsupply(program(), &acc, adapter_tulip::UnsupplyInputWrapper { reserved_amount: 20 }, 30);
    let mut data = vec![5u8];
    data.extend(le(20));
    assert_eq!(only_call(&p).data, data);
}

#[test]
fn tulip_withdraw_raydium_vault() {
    let acc = accounts(23);
    let input = adapter_tulip::WithdrawInputWrapper { share_amount: 7, farm_type_0: 0, farm_type_1: 1 };
    let p = adapter_tulip::withdraw(program(), &acc, input).unwrap();
    assert_eq!(p.invocations.len(), 2);
    let mut data = sighash("global", "withdraw_deposit_tracking").to_vec();
    data.extend(le(7));
    data.extend(le(0));
    data.extend(le(1));
    assert_eq!(p.invocations[0].instruction.data, data);
    assert_eq!(p.invocations[0].infos, AccountInfos::Picked(vec![0, 15, 16, 20, 21, 22, 12, 14, 1]));
    assert_eq!(p.invocations[0].instruction.accounts[1].pubkey, key(15));
    assert_eq!(p.invocations[1].infos, AccountInfos::Range(0, 20));
    assert_eq!(p.invocations[1].instruction.accounts.len(), 20);
    assert_eq!(p.outputs.as_ref().unwrap()[0], OutputSlot::Measured(13, Direction::Change));
}

#[test]
fn tulip_withdraw_orca_vaults() {
    let input = adapter_tulip::WithdrawInputWrapper { share_amount: 7, farm_type_0: 2, farm_type_1: 1 };
    // Exactly 33 accounts: a plain vault.
    let p = adapter_tulip::withdraw(program(), &accounts(33), input).unwrap();
    assert_eq!(p.invocations.len(), 3);
    assert_eq!(p.invocations[1].infos, AccountInfos::Range(6, 33));
    assert_eq!(p.invocations[1].instruction.accounts.len(), 27);
    let mut data = sighash("global", "withdraw_orca_vault").to_vec();
    data.push(0);
    data.extend(le(7));
    data.push(0);
    assert_eq!(p.invocations[1].instruction.data, data);
    let last = p.invocations[2].instruction.data.clone();
    assert_eq!(*last.last().unwrap(), 0);
    // Otherwise a double-dip vault, in two stages.
    let p = adapter_tulip::withdraw(program(), &accounts(35), input).unwrap();
    assert_eq!(p.invocations.len(), 4);
    assert_eq!(p.invocations[1].instruction.accounts.len(), 30);
    assert_eq!(p.invocations[2].instruction.accounts.len(), 29);
    assert_eq!(p.invocations[2].infos, AccountInfos::Range(6, 34));
    let last = p.invocations[3].instruction.data.clone();
    assert_eq!(*last.last().unwrap(), 1);
    assert_eq!(
        p.outputs,
        Some(vec![
            OutputSlot::Measured(4, Direction::Change),
            OutputSlot::Measured(5, Direction::Change),
            OutputSlot::Zero,
            OutputSlot::Zero
        ])
    );
    let bad = adapter_tulip::WithdrawInputWrapper { farm_type_0: 3, ..input };
    assert_eq!(adapter_tulip::withdraw(program(), &accounts(35), bad).err(), Some(ErrorCode::UnsupportedVaultProtocol));
}

#[test]
fn loading_every_position_loads_all() {
    let acc = accounts(6);
    let positions: Vec<usize> = (0..acc.len()).collect();
    assert_eq!(load_remaining_accounts(&acc, &positions), load_all_accounts(&acc));
}

#[test]
fn readable_slots() {
    assert!(slot_is_readable(OutputSlot::Zero, 5, 1));
    assert!(slot_is_readable(OutputSlot::Measured(0, Direction::Change), 5, 1));
    assert!(!slot_is_readable(OutputSlot::Measured(0, Direction::Gain), 5, 1));
    assert!(slot_is_readable(OutputSlot::Measured(0, Direction::Gain), 1, 5));
    assert!(slot_is_readable(OutputSlot::Measured(0, Direction::Loss), 5, 1));
    assert!(!slot_is_readable(OutputSlot::Measured(0, Direction::Loss), 1, 5));
    assert!(!slot_is_readable(OutputSlot::Measured(0, Direction::Reached), 5, 1));
}
