//! Adapter for Tulip vaults and lending: what each of its instructions invokes and
//! how its outputs are read.
use vstd::prelude::*;
use vstd::std_specs::convert::FromSpecImpl;
use crate::adapter_common::{
    AccountInfos, AccountMeta, Direction, ErrorCode, InputError, Instruction, Invocation, OutputSlot,
    Plan, RemainingAccount, call_is, encode_output, fixed_metas, le16, le32, load_all_accounts,
    load_remaining_accounts, loaded_meta, loaded_metas, meta, one_call, output_bytes, outputs_are,
    invoke_all, picked_infos, plan_of, push_readonly_tail, push_u16, read_array30_at, read_bool_at,
    read_u16_at, read_u32_at, read_u64_at, read_u8_at, readonly_tail, sighash, sighash_spec,
    single_call, slot_metas,
};
use crate::pack::{bool_byte, le64, push_byte, push_bytes, push_u64};
use crate::pubkey::Pubkey;

verus! {

/// Deposit reserve liquidity.
pub const SUPPLY_IX: u8 = 4;

/// Redeem reserve collateral.
pub const UNSUPPLY_IX: u8 = 5;

/// Input of the instruction, as its bytes hold it.
#[derive(Clone, Copy, Debug, PartialEq, Eq)]
pub struct DepositInputWrapper {
    pub lp_or_token_a_amount: u64,
    pub token_b_amount: u64,
    pub farm_type_0: u64,
    pub farm_type_1: u64,
}

impl DepositInputWrapper {
    /// Decode the input from its first 32 bytes, each field little-endian; later bytes are ignored.
    pub fn decode(input: &[u8]) -> (r: Result<DepositInputWrapper, InputError>)
        ensures
            input@.len() < 32 ==> r == Err::<DepositInputWrapper, InputError>(InputError::TooShort),
            input@.len() >= 32 ==> (r matches Ok(v) && le64(v.lp_or_token_a_amount) == input@.subrange(0, 8) && le64(v.token_b_amount) == input@.subrange(8, 16) && le64(v.farm_type_0) == input@.subrange(16, 24) && le64(v.farm_type_1) == input@.subrange(24, 32)),
    {
        let lp_or_token_a_amount = read_u64_at(input, 0)?;
        let token_b_amount = read_u64_at(input, 8)?;
        let farm_type_0 = read_u64_at(input, 16)?;
        let farm_type_1 = read_u64_at(input, 24)?;
        Ok(DepositInputWrapper { lp_or_token_a_amount, token_b_amount, farm_type_0, farm_type_1 })
    }
}

/// Input of the instruction, as its bytes hold it.
#[derive(Clone, Copy, Debug, PartialEq, Eq)]
pub struct WithdrawInputWrapper {
    pub share_amount: u64,
    pub farm_type_0: u64,
    pub farm_type_1: u64,
}

impl WithdrawInputWrapper {
    /// Decode the input from its first 24 bytes, each field little-endian; later bytes are ignored.
    pub fn decode(input: &[u8]) -> (r: Result<WithdrawInputWrapper, InputError>)
        ensures
            input@.len() < 24 ==> r == Err::<WithdrawInputWrapper, InputError>(InputError::TooShort),
            input@.len() >= 24 ==> (r matches Ok(v) && le64(v.share_amount) == input@.subrange(0, 8) && le64(v.farm_type_0) == input@.subrange(8, 16) && le64(v.farm_type_1) == input@.subrange(16, 24)),
    {
        let share_amount = read_u64_at(input, 0)?;
        let farm_type_0 = read_u64_at(input, 8)?;
        let farm_type_1 = read_u64_at(input, 16)?;
        Ok(WithdrawInputWrapper { share_amount, farm_type_0, farm_type_1 })
    }
}

/// Input of the instruction, as its bytes hold it.
#[derive(Clone, Copy, Debug, PartialEq, Eq)]
pub struct SupplyInputWrapper {
    pub supply_amount: u64,
}

impl SupplyInputWrapper {
    /// Decode the input from its first 8 bytes, each field little-endian; later bytes are ignored.
    pub fn decode(input: &[u8]) -> (r: Result<SupplyInputWrapper, InputError>)
        ensures
            input@.len() < 8 ==> r == Err::<SupplyInputWrapper, InputError>(InputError::TooShort),
            input@.len() >= 8 ==> (r matches Ok(v) && le64(v.supply_amount) == input@.subrange(0, 8)),
    {
        let supply_amount = read_u64_at(input, 0)?;
        Ok(SupplyInputWrapper { supply_amount })
    }
}

/// Input of the instruction, as its bytes hold it.
#[derive(Clone, Copy, Debug, PartialEq, Eq)]
pub struct UnsupplyInputWrapper {
    pub reserved_amount: u64,
}

impl UnsupplyInputWrapper {
    /// Decode the input from its first 8 bytes, each field little-endian; later bytes are ignored.
    pub fn decode(input: &[u8]) -> (r: Result<UnsupplyInputWrapper, InputError>)
        ensures
            input@.len() < 8 ==> r == Err::<UnsupplyInputWrapper, InputError>(InputError::TooShort),
            input@.len() >= 8 ==> (r matches Ok(v) && le64(v.reserved_amount) == input@.subrange(0, 8)),
    {
        let reserved_amount = read_u64_at(input, 0)?;
        Ok(UnsupplyInputWrapper { reserved_amount })
    }
}

/// Output of the instruction: four amounts.
#[derive(Clone, Copy, Debug, PartialEq, Eq)]
pub struct DepositOutputWrapper {
    pub share_amount: u64,
    pub dummy_2: u64,
    pub dummy_3: u64,
    pub dummy_4: u64,
}

impl DepositOutputWrapper {
    /// The 32 output bytes: the four amounts, in order, little-endian.
    pub fn encode(&self) -> (r: Vec<u8>)
        ensures
            r@ == output_bytes(self.share_amount, self.dummy_2, self.dummy_3, self.dummy_4),
    {
        encode_output(self.share_amount, self.dummy_2, self.dummy_3, self.dummy_4)
    }
}

/// Output of the instruction: four amounts.
#[derive(Clone, Copy, Debug, PartialEq, Eq)]
pub struct WithdrawOutputWrapper {
    pub lp_or_token_a_amount: u64,
    pub token_b_amount: u64,
    pub dummy_3: u64,
    pub dummy_4: u64,
}

impl WithdrawOutputWrapper {
    /// The 32 output bytes: the four amounts, in order, little-endian.
    pub fn encode(&self) -> (r: Vec<u8>)
        ensures
            r@ == output_bytes(self.lp_or_token_a_amount, self.token_b_amount, self.dummy_3, self.dummy_4),
    {
        encode_output(self.lp_or_token_a_amount, self.token_b_amount, self.dummy_3, self.dummy_4)
    }
}

/// Output of the instruction: four amounts.
#[derive(Clone, Copy, Debug, PartialEq, Eq)]
pub struct SupplyOutputWrapper {
    pub reserved_amount: u64,
    pub dummy_2: u64,
    pub dummy_3: u64,
    pub dummy_4: u64,
}

impl SupplyOutputWrapper {
    /// The 32 output bytes: the four amounts, in order, little-endian.
    pub fn encode(&self) -> (r: Vec<u8>)
        ensures
            r@ == output_bytes(self.reserved_amount, self.dummy_2, self.dummy_3, self.dummy_4),
    {
        encode_output(self.reserved_amount, self.dummy_2, self.dummy_3, self.dummy_4)
    }
}

/// Output of the instruction: four amounts.
#[derive(Clone, Copy, Debug, PartialEq, Eq)]
pub struct UnsupplyOutputWrapper {
    pub unsupply_amount: u64,
    pub dummy_2: u64,
    pub dummy_3: u64,
    pub dummy_4: u64,
}

impl UnsupplyOutputWrapper {
    /// The 32 output bytes: the four amounts, in order, little-endian.
    pub fn encode(&self) -> (r: Vec<u8>)
        ensures
            r@ == output_bytes(self.unsupply_amount, self.dummy_2, self.dummy_3, self.dummy_4),
    {
        encode_output(self.unsupply_amount, self.dummy_2, self.dummy_3, self.dummy_4)
    }
}

/// The four output amounts as a tuple, to be read by position.
pub type DepositOutputTuple = (u64, u64, u64, u64);

/// The four output amounts as a tuple, to be read by position.
pub type WithdrawOutputTuple = (u64, u64, u64, u64);

/// The four output amounts as a tuple, to be read by position.
pub type SupplyOutputTuple = (u64, u64, u64, u64);

/// The four output amounts as a tuple, to be read by position.
pub type UnsupplyOutputTuple = (u64, u64, u64, u64);

impl From<DepositOutputWrapper> for DepositOutputTuple {
    fn from(result: DepositOutputWrapper) -> Self {
        (result.share_amount, result.dummy_2, result.dummy_3, result.dummy_4)
    }
}

impl FromSpecImpl<DepositOutputWrapper> for DepositOutputTuple {
    open spec fn obeys_from_spec() -> bool {
        true
    }

    open spec fn from_spec(v: DepositOutputWrapper) -> Self {
        (v.share_amount, v.dummy_2, v.dummy_3, v.dummy_4)
    }
}

impl From<WithdrawOutputWrapper> for WithdrawOutputTuple {
    fn from(result: WithdrawOutputWrapper) -> Self {
        (result.lp_or_token_a_amount, result.token_b_amount, result.dummy_3, result.dummy_4)
    }
}

impl FromSpecImpl<WithdrawOutputWrapper> for WithdrawOutputTuple {
    open spec fn obeys_from_spec() -> bool {
        true
    }

    open spec fn from_spec(v: WithdrawOutputWrapper) -> Self {
        (v.lp_or_token_a_amount, v.token_b_amount, v.dummy_3, v.dummy_4)
    }
}

impl From<SupplyOutputWrapper> for SupplyOutputTuple {
    fn from(result: SupplyOutputWrapper) -> Self {
        (result.reserved_amount, result.dummy_2, result.dummy_3, result.dummy_4)
    }
}

impl FromSpecImpl<SupplyOutputWrapper> for SupplyOutputTuple {
    open spec fn obeys_from_spec() -> bool {
        true
    }

    open spec fn from_spec(v: SupplyOutputWrapper) -> Self {
        (v.reserved_amount, v.dummy_2, v.dummy_3, v.dummy_4)
    }
}

impl From<UnsupplyOutputWrapper> for UnsupplyOutputTuple {
    fn from(result: UnsupplyOutputWrapper) -> Self {
        (result.unsupply_amount, result.dummy_2, result.dummy_3, result.dummy_4)
    }
}

impl FromSpecImpl<UnsupplyOutputWrapper> for UnsupplyOutputTuple {
    open spec fn obeys_from_spec() -> bool {
        true
    }

    open spec fn from_spec(v: UnsupplyOutputWrapper) -> Self {
        (v.unsupply_amount, v.dummy_2, v.dummy_3, v.dummy_4)
    }
}

/// The account slots of `supply`.
pub open spec fn supply_slots() -> Seq<(usize, bool, bool)> {
    seq![
        (0usize, false, true),
        (1usize, false, true),
        (2usize, false, true),
        (3usize, false, true),
        (4usize, false, true),
        (5usize, false, false),
        (6usize, false, false),
        (7usize, true, false),
        (8usize, false, false),
        (9usize, false, false),
    ]
}

/// Deposit `supply_amount` reserve liquidity: instruction 4 with the
/// amount. The gain of the collateral token account (1) is measured.
pub fn supply(
    program_id: Pubkey,
    remaining_accounts: &[RemainingAccount],
    input: SupplyInputWrapper,
) -> (r: Plan)
    requires
        remaining_accounts@.len() >= 10,
    ensures
        one_call(
            r,
            program_id,
            slot_metas(remaining_accounts@, supply_slots()),
            seq![SUPPLY_IX] + le64(input.supply_amount),
            seq![
                OutputSlot::Measured(1usize, Direction::Gain),
                OutputSlot::Zero,
                OutputSlot::Zero,
                OutputSlot::Zero,
            ],
        ),
{
    let slots: [(usize, bool, bool); 10] = [
            (0, false, true),
            (1, false, true),
            (2, false, true),
            (3, false, true),
            (4, false, true),
            (5, false, false),
            (6, false, false),
            (7, true, false),
            (8, false, false),
            (9, false, false),
        ];
    assert(slots@ =~= supply_slots());
    let accounts = fixed_metas(remaining_accounts, &slots);
    let mut data: Vec<u8> = Vec::new();
    push_byte(&mut data, SUPPLY_IX);
    assert(data@ =~= seq![SUPPLY_IX]);
    push_u64(&mut data, input.supply_amount);
    let mut outputs: Vec<OutputSlot> = Vec::new();
    outputs.push(OutputSlot::Measured(1, Direction::Gain));
    outputs.push(OutputSlot::Zero);
    outputs.push(OutputSlot::Zero);
    outputs.push(OutputSlot::Zero);
    assert(outputs@ =~= seq![
        OutputSlot::Measured(1usize, Direction::Gain),
        OutputSlot::Zero,
        OutputSlot::Zero,
        OutputSlot::Zero,
    ]);
    single_call(Instruction { program_id, accounts, data }, outputs)
}


/// The positions of the accounts of a deposit into a Raydium vault.
pub open spec fn deposit_raydium_indices() -> Seq<usize> {
    seq![0usize, 1, 2, 3, 4, 5, 6, 7, 8, 9]
}

/// The positions of the accounts of a deposit into an Orca vault.
pub open spec fn deposit_orca_indices() -> Seq<usize> {
    seq![0usize, 1, 2, 3, 4, 5, 6, 7, 8, 9, 10, 11, 12, 13, 14, 15, 16, 17, 18]
}

/// Instruction data made of a selector and three little-endian amounts.
fn selector_with_amounts(name: &str, a: u64, b: u64, c: u64) -> (r: Vec<u8>)
    ensures
        r@ == sighash_spec("global"@, name@) + le64(a) + le64(b) + le64(c),
{
    let mut data: Vec<u8> = Vec::new();
    let selector = sighash("global", name);
    push_bytes(&mut data, selector.as_slice());
    assert(data@ =~= sighash_spec("global"@, name@));
    push_u64(&mut data, a);
    push_u64(&mut data, b);
    push_u64(&mut data, c);
    data
}

/// Deposit into a vault. Farm type 0 (Raydium) issues shares for
/// `lp_or_token_a_amount` pool tokens (`issue_shares` with the two farm types
/// and the amount, on the first ten accounts); farm type 2 (Orca) adds
/// liquidity and issues shares (`orca_add_liq_issue_shares` with both token
/// amounts and the two farm types, on the first nineteen accounts). The
/// accounts are flagged as they are. Any other farm type is
/// `UnsupportedVaultProtocol`. The share token account (7) is measured.
pub fn deposit(
    program_id: Pubkey,
    remaining_accounts: &[RemainingAccount],
    input: DepositInputWrapper,
) -> (r: Result<Plan, ErrorCode>)
    requires
        input.farm_type_0 == 0 ==> remaining_accounts@.len() >= 10,
        input.farm_type_0 == 2 ==> remaining_accounts@.len() >= 19,
    ensures
        input.farm_type_0 != 0 && input.farm_type_0 != 2 ==> r == Err::<Plan, ErrorCode>(
            ErrorCode::UnsupportedVaultProtocol,
        ),
        input.farm_type_0 == 0 ==> (r matches Ok(p) && one_call(
            p,
            program_id,
            loaded_metas(remaining_accounts@, deposit_raydium_indices()),
            sighash_spec("global"@, "issue_shares"@) + le64(input.farm_type_0) + le64(
                input.farm_type_1,
            ) + le64(input.lp_or_token_a_amount),
            seq![OutputSlot::Measured(7usize, Direction::Change), OutputSlot::Zero, OutputSlot::Zero, OutputSlot::Zero],
        )),
        input.farm_type_0 == 2 ==> (r matches Ok(p) && one_call(
            p,
            program_id,
            loaded_metas(remaining_accounts@, deposit_orca_indices()),
            sighash_spec("global"@, "orca_add_liq_issue_shares"@) + le64(input.lp_or_token_a_amount)
                + le64(input.token_b_amount) + le64(input.farm_type_0) + le64(input.farm_type_1),
            seq![OutputSlot::Measured(7usize, Direction::Change), OutputSlot::Zero, OutputSlot::Zero, OutputSlot::Zero],
        )),
{
    let outputs = vec![
        OutputSlot::Measured(7, Direction::Change),
        OutputSlot::Zero,
        OutputSlot::Zero,
        OutputSlot::Zero,
    ];
    if input.farm_type_0 == 0 {
        let mut data = selector_with_amounts("issue_shares", input.farm_type_0, input.farm_type_1, input.lp_or_token_a_amount);
        let index_array: [usize; 10] = [0, 1, 2, 3, 4, 5, 6, 7, 8, 9];
        assert(index_array@ =~= deposit_raydium_indices());
        let accounts = load_remaining_accounts(remaining_accounts, &index_array);
        Ok(single_call(Instruction { program_id, accounts, data }, outputs))
    } else if input.farm_type_0 == 2 {
        let mut data = selector_with_amounts(
            "orca_add_liq_issue_shares",
            input.lp_or_token_a_amount,
            input.token_b_amount,
            input.farm_type_0,
        );
        push_u64(&mut data, input.farm_type_1);
        let index_array: [usize; 19] = [0, 1, 2, 3, 4, 5, 6, 7, 8, 9, 10, 11, 12, 13, 14, 15, 16, 17, 18];
        assert(index_array@ =~= deposit_orca_indices());
        let accounts = load_remaining_accounts(remaining_accounts, &index_array);
        Ok(single_call(Instruction { program_id, accounts, data }, outputs))
    } else {
        Err(ErrorCode::UnsupportedVaultProtocol)
    }
}

/// The invocation runs an instruction of `program_id` with these accounts
/// and data, handing over the accounts at the positions `picked`.
pub open spec fn call_picks(
    inv: Invocation,
    program_id: Pubkey,
    accounts: Seq<AccountMeta>,
    data: Seq<u8>,
    picked: Seq<usize>,
) -> bool {
    &&& inv.instruction.program_id == program_id
    &&& inv.instruction.accounts@ == accounts
    &&& inv.instruction.data@ == data
    &&& inv.infos matches AccountInfos::Picked(v) && v@ == picked
}

/// The positions of the accounts of a deposit-tracking withdrawal from a
/// Raydium vault.
pub open spec fn raydium_tracking_indices() -> Seq<usize> {
    seq![0usize, 15, 16, 20, 21, 22, 12, 14, 1]
}

/// The positions of the accounts of a Raydium vault withdrawal.
pub open spec fn raydium_vault_indices() -> Seq<usize> {
    seq![0usize, 1, 2, 3, 4, 5, 6, 7, 8, 9, 10, 11, 12, 13, 14, 15, 16, 17, 18, 19]
}

/// The positions of the accounts of a deposit-tracking withdrawal from an
/// Orca vault.
pub open spec fn orca_tracking_indices() -> Seq<usize> {
    seq![6usize, 3, 27, 0, 1, 2, 9, 25, 7]
}

/// The positions of the accounts of an Orca vault withdrawal.
pub open spec fn orca_vault_indices() -> Seq<usize> {
    seq![6usize, 7, 8, 9, 10, 11, 12, 13, 14, 15, 16, 17, 18, 19, 20, 21, 22, 23, 24, 25, 26, 27, 28, 29, 30, 31, 32]
}

/// The positions of the accounts of the first stage of a double-dip Orca
/// vault withdrawal.
pub open spec fn orca_dd_stage_one_indices() -> Seq<usize> {
    seq![6usize, 7, 8, 9, 10, 11, 12, 13, 14, 15, 16, 17, 18, 19, 20, 21, 22, 23, 24, 24, 25, 26, 27, 28, 29, 30, 31, 32, 33, 34]
}

/// The positions of the accounts of the second stage of a double-dip Orca
/// vault withdrawal.
pub open spec fn orca_dd_stage_two_indices() -> Seq<usize> {
    seq![6usize, 7, 8, 9, 10, 11, 12, 13, 14, 15, 16, 17, 18, 19, 20, 21, 22, 23, 24, 24, 25, 26, 27, 28, 29, 30, 31, 32, 33]
}

/// The positions of the accounts of the liquidity removal after an Orca
/// vault withdrawal.
pub open spec fn orca_remove_liq_indices() -> Seq<usize> {
    seq![6usize, 7, 8, 10, 4, 5, 16, 17, 28, 21, 22, 23, 26, 27, 30, 25]
}

/// The data of a withdrawal naming the shares and the two farm types.
pub open spec fn shares_data(name: Seq<char>, input: WithdrawInputWrapper) -> Seq<u8> {
    sighash_spec("global"@, name) + le64(input.share_amount) + le64(input.farm_type_0) + le64(
        input.farm_type_1,
    )
}

/// Withdraw `share_amount` shares from a vault.
///
/// Farm type 0 (Raydium): the deposit-tracking withdrawal
/// (`withdraw_deposit_tracking`), handed its nine accounts, then the vault
/// withdrawal (`withdraw_raydium_vault`) on the first twenty accounts; both
/// name the shares and the two farm types. The token account 13 is measured.
///
/// Farm type 2 (Orca): the deposit-tracking withdrawal, then with exactly 33
/// accounts the vault withdrawal (`withdraw_orca_vault`, not double-dip), and
/// otherwise the two stages of the double-dip withdrawal; then the liquidity
/// removal (`withdraw_orca_vault_remove_liq`) with the double-dip flag. The
/// token accounts 4 and 5 are measured.
///
/// Any other farm type is `UnsupportedVaultProtocol`. All instructions take
/// their accounts flagged as they are.
pub fn withdraw(
    program_id: Pubkey,
    remaining_accounts: &[RemainingAccount],
    input: WithdrawInputWrapper,
) -> (r: Result<Plan, ErrorCode>)
    requires
        input.farm_type_0 == 0 ==> remaining_accounts@.len() >= 23,
        input.farm_type_0 == 2 ==> remaining_accounts@.len() == 33 || remaining_accounts@.len() >= 35,
    ensures
        input.farm_type_0 != 0 && input.farm_type_0 != 2 ==> r == Err::<Plan, ErrorCode>(
            ErrorCode::UnsupportedVaultProtocol,
        ),
        input.farm_type_0 == 0 ==> (r matches Ok(p) && p.invocations@.len() == 2 && call_picks(
            p.invocations@[0],
            program_id,
            loaded_metas(remaining_accounts@, raydium_tracking_indices()),
            shares_data("withdraw_deposit_tracking"@, input),
            raydium_tracking_indices(),
        ) && call_is(
            p.invocations@[1],
            program_id,
            loaded_metas(remaining_accounts@, raydium_vault_indices()),
            shares_data("withdraw_raydium_vault"@, input),
            AccountInfos::Range(0, 20),
        ) && outputs_are(
            p,
            seq![OutputSlot::Measured(13usize, Direction::Change), OutputSlot::Zero, OutputSlot::Zero, OutputSlot::Zero],
        )),
        input.farm_type_0 == 2 && remaining_accounts@.len() == 33 ==> (r matches Ok(p)
            && p.invocations@.len() == 3 && call_picks(
            p.invocations@[0],
            program_id,
            loaded_metas(remaining_accounts@, orca_tracking_indices()),
            shares_data("withdraw_deposit_tracking"@, input),
            orca_tracking_indices(),
        ) && call_is(
            p.invocations@[1],
            program_id,
            loaded_metas(remaining_accounts@, orca_vault_indices()),
            sighash_spec("global"@, "withdraw_orca_vault"@) + seq![0u8] + le64(input.share_amount)
                + seq![0u8],
            AccountInfos::Range(6, 33),
        ) && call_picks(
            p.invocations@[2],
            program_id,
            loaded_metas(remaining_accounts@, orca_remove_liq_indices()),
            sighash_spec("global"@, "withdraw_orca_vault_remove_liq"@) + seq![0u8],
            orca_remove_liq_indices(),
        ) && outputs_are(
            p,
            seq![
                OutputSlot::Measured(4usize, Direction::Change),
                OutputSlot::Measured(5usize, Direction::Change),
                OutputSlot::Zero,
                OutputSlot::Zero,
            ],
        )),
        input.farm_type_0 == 2 && remaining_accounts@.len() != 33 ==> (r matches Ok(p)
            && p.invocations@.len() == 4 && call_picks(
            p.invocations@[0],
            program_id,
            loaded_metas(remaining_accounts@, orca_tracking_indices()),
            shares_data("withdraw_deposit_tracking"@, input),
            orca_tracking_indices(),
        ) && call_is(
            p.invocations@[1],
            program_id,
            loaded_metas(remaining_accounts@, orca_dd_stage_one_indices()),
            sighash_spec("global"@, "withdraw_orca_vault_dd_stage_one"@) + seq![1u8] + le64(
                input.share_amount,
            ) + seq![0u8],
            AccountInfos::Range(6, 35),
        ) && call_is(
            p.invocations@[2],
            program_id,
            loaded_metas(remaining_accounts@, orca_dd_stage_two_indices()),
            sighash_spec("global"@, "withdraw_orca_vault_dd_stage_two"@),
            AccountInfos::Range(6, 34),
        ) && call_picks(
            p.invocations@[3],
            program_id,
            loaded_metas(remaining_accounts@, orca_remove_liq_indices()),
            sighash_spec("global"@, "withdraw_orca_vault_remove_liq"@) + seq![1u8],
            orca_remove_liq_indices(),
        ) && outputs_are(
            p,
            seq![
                OutputSlot::Measured(4usize, Direction::Change),
                OutputSlot::Measured(5usize, Direction::Change),
                OutputSlot::Zero,
                OutputSlot::Zero,
            ],
        )),
{
    if input.farm_type_0 == 0 {
        let mut invocations: Vec<Invocation> = Vec::new();
        let tracking: [usize; 9] = [0, 15, 16, 20, 21, 22, 12, 14, 1];
        assert(tracking@ =~= raydium_tracking_indices());
        let accounts = load_remaining_accounts(remaining_accounts, &tracking);
        let data = selector_with_amounts(
            "withdraw_deposit_tracking",
            input.share_amount,
            input.farm_type_0,
            input.farm_type_1,
        );
        let infos = picked_infos(remaining_accounts.len(), &tracking);
        invocations.push(Invocation { instruction: Instruction { program_id, accounts, data }, infos });
        let vault: [usize; 20] = [0, 1, 2, 3, 4, 5, 6, 7, 8, 9, 10, 11, 12, 13, 14, 15, 16, 17, 18, 19];
        assert(vault@ =~= raydium_vault_indices());
        let accounts = load_remaining_accounts(remaining_accounts, &vault);
        let data = selector_with_amounts(
            "withdraw_raydium_vault",
            input.share_amount,
            input.farm_type_0,
            input.farm_type_1,
        );
        invocations.push(
            Invocation { instruction: Instruction { program_id, accounts, data }, infos: AccountInfos::Range(0, 20) },
        );
        let outputs = vec![
            OutputSlot::Measured(13, Direction::Change),
            OutputSlot::Zero,
            OutputSlot::Zero,
            OutputSlot::Zero,
        ];
        Ok(plan_of(invocations, outputs))
    } else if input.farm_type_0 == 2 {
        let mut invocations: Vec<Invocation> = Vec::new();
        let tracking: [usize; 9] = [6, 3, 27, 0, 1, 2, 9, 25, 7];
        assert(tracking@ =~= orca_tracking_indices());
        let accounts = load_remaining_accounts(remaining_accounts, &tracking);
        let data = selector_with_amounts(
            "withdraw_deposit_tracking",
            input.share_amount,
            input.farm_type_0,
            input.farm_type_1,
        );
        let infos = picked_infos(remaining_accounts.len(), &tracking);
        invocations.push(Invocation { instruction: Instruction { program_id, accounts, data }, infos });
        let is_double_dip: bool;
        if remaining_accounts.len() == 33 {
            is_double_dip = false;
            let vault: [usize; 27] = [6, 7, 8, 9, 10, 11, 12, 13, 14, 15, 16, 17, 18, 19, 20, 21, 22, 23, 24, 25, 26, 27, 28, 29, 30, 31, 32];
            assert(vault@ =~= orca_vault_indices());
            let accounts = load_remaining_accounts(remaining_accounts, &vault);
            let mut data: Vec<u8> = Vec::new();
            let selector = sighash("global", "withdraw_orca_vault");
            push_bytes(&mut data, selector.as_slice());
            assert(data@ =~= sighash_spec("global"@, "withdraw_orca_vault"@));
            push_byte(&mut data, 0);
            push_u64(&mut data, input.share_amount);
            push_byte(&mut data, 0);
            invocations.push(
                Invocation { instruction: Instruction { program_id, accounts, data }, infos: AccountInfos::Range(6, 33) },
            );
        } else {
            is_double_dip = true;
            let stage_one: [usize; 30] = [6, 7, 8, 9, 10, 11, 12, 13, 14, 15, 16, 17, 18, 19, 20, 21, 22, 23, 24, 24, 25, 26, 27, 28, 29, 30, 31, 32, 33, 34];
            assert(stage_one@ =~= orca_dd_stage_one_indices());
            let accounts = load_remaining_accounts(remaining_accounts, &stage_one);
            let mut data: Vec<u8> = Vec::new();
            let selector = sighash("global", "withdraw_orca_vault_dd_stage_one");
            push_bytes(&mut data, selector.as_slice());
            assert(data@ =~= sighash_spec("global"@, "withdraw_orca_vault_dd_stage_one"@));
            push_byte(&mut data, 1);
            push_u64(&mut data, input.share_amount);
            push_byte(&mut data, 0);
            invocations.push(
                Invocation { instruction: Instruction { program_id, accounts, data }, infos: AccountInfos::Range(6, 35) },
            );
            let stage_two: [usize; 29] = [6, 7, 8, 9, 10, 11, 12, 13, 14, 15, 16, 17, 18, 19, 20, 21, 22, 23, 24, 24, 25, 26, 27, 28, 29, 30, 31, 32, 33];
            assert(stage_two@ =~= orca_dd_stage_two_indices());
            let accounts = load_remaining_accounts(remaining_accounts, &stage_two);
            let mut data: Vec<u8> = Vec::new();
            let selector = sighash("global", "withdraw_orca_vault_dd_stage_two");
            push_bytes(&mut data, selector.as_slice());
            assert(data@ =~= sighash_spec("global"@, "withdraw_orca_vault_dd_stage_two"@));
            invocations.push(
                Invocation { instruction: Instruction { program_id, accounts, data }, infos: AccountInfos::Range(6, 34) },
            );
        }
        let remove_liq: [usize; 16] = [6, 7, 8, 10, 4, 5, 16, 17, 28, 21, 22, 23, 26, 27, 30, 25];
        assert(remove_liq@ =~= orca_remove_liq_indices());
        let accounts = load_remaining_accounts(remaining_accounts, &remove_liq);
        let mut data: Vec<u8> = Vec::new();
        let selector = sighash("global", "withdraw_orca_vault_remove_liq");
        push_bytes(&mut data, selector.as_slice());
        assert(data@ =~= sighash_spec("global"@, "withdraw_orca_vault_remove_liq"@));
        push_byte(&mut data, if is_double_dip { 1 } else { 0 });
        let infos = picked_infos(remaining_accounts.len(), &remove_liq);
        invocations.push(Invocation { instruction: Instruction { program_id, accounts, data }, infos });
        let outputs = vec![
            OutputSlot::Measured(4, Direction::Change),
            OutputSlot::Measured(5, Direction::Change),
            OutputSlot::Zero,
            OutputSlot::Zero,
        ];
        Ok(plan_of(invocations, outputs))
    } else {
        Err(ErrorCode::UnsupportedVaultProtocol)
    }
}

/// The collateral to redeem: what was asked, or all the reserve token
/// account holds when it holds less.
pub open spec fn unsupply_amount(reserved_token_amount: u64, requested: u64) -> u64 {
    if reserved_token_amount >= requested {
        requested
    } else {
        reserved_token_amount
    }
}

/// The account slots of `supply` and `unsupply`.
pub open spec fn unsupply_slots() -> Seq<(usize, bool, bool)> {
    supply_slots()
}

/// Redeem reserve collateral: instruction 5 with `reserved_amount`, capped at
/// `reserved_token_amount`, the balance of the reserve token account (0). The
/// gain of the liquidity token account (1) is measured.
pub fn unsupply(
    program_id: Pubkey,
    remaining_accounts: &[RemainingAccount],
    input: UnsupplyInputWrapper,
    reserved_token_amount: u64,
) -> (r: Plan)
    requires
        remaining_accounts@.len() >= 10,
    ensures
        one_call(
            r,
            program_id,
            slot_metas(remaining_accounts@, unsupply_slots()),
            seq![UNSUPPLY_IX] + le64(unsupply_amount(reserved_token_amount, input.reserved_amount)),
            seq![OutputSlot::Measured(1usize, Direction::Gain), OutputSlot::Zero, OutputSlot::Zero, OutputSlot::Zero],
        ),
{
    let amount = if reserved_token_amount >= input.reserved_amount {
        input.reserved_amount
    } else {
        reserved_token_amount
    };
    let slots: [(usize, bool, bool); 10] = [
        (0, false, true),
        (1, false, true),
        (2, false, true),
        (3, false, true),
        (4, false, true),
        (5, false, false),
        (6, false, false),
        (7, true, false),
        (8, false, false),
        (9, false, false),
    ];
    assert(slots@ =~= unsupply_slots());
    let accounts = fixed_metas(remaining_accounts, &slots);
    let mut data: Vec<u8> = Vec::new();
    push_byte(&mut data, UNSUPPLY_IX);
    assert(data@ =~= seq![UNSUPPLY_IX]);
    push_u64(&mut data, amount);
    let outputs = vec![
        OutputSlot::Measured(1, Direction::Gain),
        OutputSlot::Zero,
        OutputSlot::Zero,
        OutputSlot::Zero,
    ];
    single_call(Instruction { program_id, accounts, data }, outputs)
}


} // verus!
