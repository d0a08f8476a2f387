//! Adapter for Larix lending and mining: what each of its instructions invokes and
//! how its outputs are read.
use vstd::prelude::*;
use vstd::std_specs::convert::FromSpecImpl;
use crate::adapter_common::{
    AccountInfos, AccountMeta, Direction, ErrorCode, InputError, Instruction, Invocation, OutputSlot,
    Plan, RemainingAccount, call_is, encode_output, fixed_metas, le16, le32, load_all_accounts,
    load_remaining_accounts, loaded_meta, loaded_metas, meta, one_call, output_bytes, outputs_are,
    invoke_all, picked_infos, plan_of, push_readonly_tail, push_u16, read_array30_at, read_bool_at,
    read_u16_at, read_u32_at, read_u64_at, read_u8_at, readonly_tail, sighash, sighash_spec,
    single_call, slot_metas,
};
use crate::pack::{bool_byte, le64, push_byte, push_bytes, push_u64};
use crate::pubkey::Pubkey;

verus! {

/// Deposit reserve liquidity.
pub const DEPOSIT_RESERVE_ID: u8 = 4;

/// Redeem reserve collateral.
pub const WITHDRAW_RESERVE_ID: u8 = 5;

/// Borrow obligation liquidity.
pub const BORROW_IX_ID: u8 = 10;

/// Repay obligation liquidity.
pub const REPAY_IX_ID: u8 = 11;

/// Deposit into mining.
pub const STAKE_ID: u8 = 18;

/// Withdraw from mining.
pub const UNSTAKE_ID: u8 = 19;

/// Deposit obligation collateral.
pub const COLLATERALIZE_ID: u8 = 8;

/// Withdraw obligation collateral.
pub const WITHDRAW_OBLIGATION_ID: u8 = 9;

/// Claim mining rewards.
pub const HARVEST_ID: u8 = 20;

/// Claim obligation collateral rewards.
pub const CLAIM_ID: u8 = 21;

/// A repayment of this amount repays everything: the largest integer a double holds exactly.
pub const MAGIC_NUMBER: u64 = 9007199254740991;

/// Input of the instruction, as its bytes hold it.
#[derive(Clone, Copy, Debug, PartialEq, Eq)]
pub struct SupplyInputWrapper {
    pub token_in_amount: u64,
}

impl SupplyInputWrapper {
    /// Decode the input from its first 8 bytes, each field little-endian; later bytes are ignored.
    pub fn decode(input: &[u8]) -> (r: Result<SupplyInputWrapper, InputError>)
        ensures
            input@.len() < 8 ==> r == Err::<SupplyInputWrapper, InputError>(InputError::TooShort),
            input@.len() >= 8 ==> (r matches Ok(v) && le64(v.token_in_amount) == input@.subrange(0, 8)),
    {
        let token_in_amount = read_u64_at(input, 0)?;
        Ok(SupplyInputWrapper { token_in_amount })
    }
}

/// Input of the instruction, as its bytes hold it.
#[derive(Clone, Copy, Debug, PartialEq, Eq)]
pub struct UnsupplyInputWrapper {
}

impl UnsupplyInputWrapper {
    /// Decode the input: it has no fields, so any bytes will do.
    pub fn decode(input: &[u8]) -> (r: Result<UnsupplyInputWrapper, InputError>)
        ensures
            r == Ok::<UnsupplyInputWrapper, InputError>(UnsupplyInputWrapper {}),
    {
        Ok(UnsupplyInputWrapper {})
    }
}

/// Input of the instruction, as its bytes hold it.
#[derive(Clone, Copy, Debug, PartialEq, Eq)]
pub struct BorrowInputWrapper {
    pub borrow_amount: u64,
}

impl BorrowInputWrapper {
    /// Decode the input from its first 8 bytes, each field little-endian; later bytes are ignored.
    pub fn decode(input: &[u8]) -> (r: Result<BorrowInputWrapper, InputError>)
        ensures
            input@.len() < 8 ==> r == Err::<BorrowInputWrapper, InputError>(InputError::TooShort),
            input@.len() >= 8 ==> (r matches Ok(v) && le64(v.borrow_amount) == input@.subrange(0, 8)),
    {
        let borrow_amount = read_u64_at(input, 0)?;
        Ok(BorrowInputWrapper { borrow_amount })
    }
}

/// Input of the instruction, as its bytes hold it.
#[derive(Clone, Copy, Debug, PartialEq, Eq)]
pub struct RepayInputWrapper {
    pub repay_amount: u64,
}

impl RepayInputWrapper {
    /// Decode the input from its first 8 bytes, each field little-endian; later bytes are ignored.
    pub fn decode(input: &[u8]) -> (r: Result<RepayInputWrapper, InputError>)
        ensures
            input@.len() < 8 ==> r == Err::<RepayInputWrapper, InputError>(InputError::TooShort),
            input@.len() >= 8 ==> (r matches Ok(v) && le64(v.repay_amount) == input@.subrange(0, 8)),
    {
        let repay_amount = read_u64_at(input, 0)?;
        Ok(RepayInputWrapper { repay_amount })
    }
}

/// Input of the instruction, as its bytes hold it.
#[derive(Clone, Copy, Debug, PartialEq, Eq)]
pub struct StakeInputWrapper {
}

impl StakeInputWrapper {
    /// Decode the input: it has no fields, so any bytes will do.
    pub fn decode(input: &[u8]) -> (r: Result<StakeInputWrapper, InputError>)
        ensures
            r == Ok::<StakeInputWrapper, InputError>(StakeInputWrapper {}),
    {
        Ok(StakeInputWrapper {})
    }
}

/// Input of the instruction, as its bytes hold it.
#[derive(Clone, Copy, Debug, PartialEq, Eq)]
pub struct UnstakeInputWrapper {
    pub reserve_out_amount: u64,
}

impl UnstakeInputWrapper {
    /// Decode the input from its first 8 bytes, each field little-endian; later bytes are ignored.
    pub fn decode(input: &[u8]) -> (r: Result<UnstakeInputWrapper, InputError>)
        ensures
            input@.len() < 8 ==> r == Err::<UnstakeInputWrapper, InputError>(InputError::TooShort),
            input@.len() >= 8 ==> (r matches Ok(v) && le64(v.reserve_out_amount) == input@.subrange(0, 8)),
    {
        let reserve_out_amount = read_u64_at(input, 0)?;
        Ok(UnstakeInputWrapper { reserve_out_amount })
    }
}

/// Input of the instruction, as its bytes hold it.
#[derive(Clone, Copy, Debug, PartialEq, Eq)]
pub struct CollateralizeInputWrapper {
}

impl CollateralizeInputWrapper {
    /// Decode the input: it has no fields, so any bytes will do.
    pub fn decode(input: &[u8]) -> (r: Result<CollateralizeInputWrapper, InputError>)
        ensures
            r == Ok::<CollateralizeInputWrapper, InputError>(CollateralizeInputWrapper {}),
    {
        Ok(CollateralizeInputWrapper {})
    }
}

/// Input of the instruction, as its bytes hold it.
#[derive(Clone, Copy, Debug, PartialEq, Eq)]
pub struct UncollateralizeInputWrapper {
    pub reserve_out_amount: u64,
}

impl UncollateralizeInputWrapper {
    /// Decode the input from its first 8 bytes, each field little-endian; later bytes are ignored.
    pub fn decode(input: &[u8]) -> (r: Result<UncollateralizeInputWrapper, InputError>)
        ensures
            input@.len() < 8 ==> r == Err::<UncollateralizeInputWrapper, InputError>(InputError::TooShort),
            input@.len() >= 8 ==> (r matches Ok(v) && le64(v.reserve_out_amount) == input@.subrange(0, 8)),
    {
        let reserve_out_amount = read_u64_at(input, 0)?;
        Ok(UncollateralizeInputWrapper { reserve_out_amount })
    }
}

/// Input of the instruction, as its bytes hold it.
#[derive(Clone, Copy, Debug, PartialEq, Eq)]
pub struct HarvestInputWrapper {
}

impl HarvestInputWrapper {
    /// Decode the input: it has no fields, so any bytes will do.
    pub fn decode(input: &[u8]) -> (r: Result<HarvestInputWrapper, InputError>)
        ensures
            r == Ok::<HarvestInputWrapper, InputError>(HarvestInputWrapper {}),
    {
        Ok(HarvestInputWrapper {})
    }
}

/// Input of the instruction, as its bytes hold it.
#[derive(Clone, Copy, Debug, PartialEq, Eq)]
pub struct ClaimCollateralRewardInputWrapper {
}

impl ClaimCollateralRewardInputWrapper {
    /// Decode the input: it has no fields, so any bytes will do.
    pub fn decode(input: &[u8]) -> (r: Result<ClaimCollateralRewardInputWrapper, InputError>)
        ensures
            r == Ok::<ClaimCollateralRewardInputWrapper, InputError>(ClaimCollateralRewardInputWrapper {}),
    {
        Ok(ClaimCollateralRewardInputWrapper {})
    }
}

/// Output of the instruction: four amounts.
#[derive(Clone, Copy, Debug, PartialEq, Eq)]
pub struct SupplyOutputWrapper {
    pub reserve_out_amount: u64,
    pub supply_in_amount: u64,
    pub dummy_3: u64,
    pub dummy_4: u64,
}

impl SupplyOutputWrapper {
    /// The 32 output bytes: the four amounts, in order, little-endian.
    pub fn encode(&self) -> (r: Vec<u8>)
        ensures
            r@ == output_bytes(self.reserve_out_amount, self.supply_in_amount, self.dummy_3, self.dummy_4),
    {
        encode_output(self.reserve_out_amount, self.supply_in_amount, self.dummy_3, self.dummy_4)
    }
}

/// Output of the instruction: four amounts.
#[derive(Clone, Copy, Debug, PartialEq, Eq)]
pub struct UnsupplyOutputWrapper {
    pub supply_out_amount: u64,
    pub reserve_in_amount: u64,
    pub dummy_3: u64,
    pub dummy_4: u64,
}

impl UnsupplyOutputWrapper {
    /// The 32 output bytes: the four amounts, in order, little-endian.
    pub fn encode(&self) -> (r: Vec<u8>)
        ensures
            r@ == output_bytes(self.supply_out_amount, self.reserve_in_amount, self.dummy_3, self.dummy_4),
    {
        encode_output(self.supply_out_amount, self.reserve_in_amount, self.dummy_3, self.dummy_4)
    }
}

/// Output of the instruction: four amounts.
#[derive(Clone, Copy, Debug, PartialEq, Eq)]
pub struct BorrowOutputWrapper {
    pub token_out_amount: u64,
    pub dummy_2: u64,
    pub dummy_3: u64,
    pub dummy_4: u64,
}

impl BorrowOutputWrapper {
    /// The 32 output bytes: the four amounts, in order, little-endian.
    pub fn encode(&self) -> (r: Vec<u8>)
        ensures
            r@ == output_bytes(self.token_out_amount, self.dummy_2, self.dummy_3, self.dummy_4),
    {
        encode_output(self.token_out_amount, self.dummy_2, self.dummy_3, self.dummy_4)
    }
}

/// Output of the instruction: four amounts.
#[derive(Clone, Copy, Debug, PartialEq, Eq)]
pub struct RepayOutputWrapper {
    pub token_in_amount: u64,
    pub dummy_2: u64,
    pub dummy_3: u64,
    pub dummy_4: u64,
}

impl RepayOutputWrapper {
    /// The 32 output bytes: the four amounts, in order, little-endian.
    pub fn encode(&self) -> (r: Vec<u8>)
        ensures
            r@ == output_bytes(self.token_in_amount, self.dummy_2, self.dummy_3, self.dummy_4),
    {
        encode_output(self.token_in_amount, self.dummy_2, self.dummy_3, self.dummy_4)
    }
}

/// Output of the instruction: four amounts.
#[derive(Clone, Copy, Debug, PartialEq, Eq)]
pub struct StakeOutputWrapper {
    pub reserve_in_amount: u64,
    pub dummy_2: u64,
    pub dummy_3: u64,
    pub dummy_4: u64,
}

impl StakeOutputWrapper {
    /// The 32 output bytes: the four amounts, in order, little-endian.
    pub fn encode(&self) -> (r: Vec<u8>)
        ensures
            r@ == output_bytes(self.reserve_in_amount, self.dummy_2, self.dummy_3, self.dummy_4),
    {
        encode_output(self.reserve_in_amount, self.dummy_2, self.dummy_3, self.dummy_4)
    }
}

/// Output of the instruction: four amounts.
#[derive(Clone, Copy, Debug, PartialEq, Eq)]
pub struct UnstakeOutputWrapper {
    pub reserve_out_amount: u64,
    pub dummy_2: u64,
    pub dummy_3: u64,
    pub dummy_4: u64,
}

impl UnstakeOutputWrapper {
    /// The 32 output bytes: the four amounts, in order, little-endian.
    pub fn encode(&self) -> (r: Vec<u8>)
        ensures
            r@ == output_bytes(self.reserve_out_amount, self.dummy_2, self.dummy_3, self.dummy_4),
    {
        encode_output(self.reserve_out_amount, self.dummy_2, self.dummy_3, self.dummy_4)
    }
}

/// Output of the instruction: four amounts.
#[derive(Clone, Copy, Debug, PartialEq, Eq)]
pub struct CollateralizeOutputWrapper {
    pub reserve_in_amount: u64,
    pub dummy_2: u64,
    pub dummy_3: u64,
    pub dummy_4: u64,
}

impl CollateralizeOutputWrapper {
    /// The 32 output bytes: the four amounts, in order, little-endian.
    pub fn encode(&self) -> (r: Vec<u8>)
        ensures
            r@ == output_bytes(self.reserve_in_amount, self.dummy_2, self.dummy_3, self.dummy_4),
    {
        encode_output(self.reserve_in_amount, self.dummy_2, self.dummy_3, self.dummy_4)
    }
}

/// Output of the instruction: four amounts.
#[derive(Clone, Copy, Debug, PartialEq, Eq)]
pub struct UncollateralizeOutputWrapper {
    pub reserve_out_amount: u64,
    pub dummy_2: u64,
    pub dummy_3: u64,
    pub dummy_4: u64,
}

impl UncollateralizeOutputWrapper {
    /// The 32 output bytes: the four amounts, in order, little-endian.
    pub fn encode(&self) -> (r: Vec<u8>)
        ensures
            r@ == output_bytes(self.reserve_out_amount, self.dummy_2, self.dummy_3, self.dummy_4),
    {
        encode_output(self.reserve_out_amount, self.dummy_2, self.dummy_3, self.dummy_4)
    }
}

/// Output of the instruction: four amounts.
#[derive(Clone, Copy, Debug, PartialEq, Eq)]
pub struct HarvestOutputWrapper {
    pub reward_amount: u64,
    pub dummy_2: u64,
    pub dummy_3: u64,
    pub dummy_4: u64,
}

impl HarvestOutputWrapper {
    /// The 32 output bytes: the four amounts, in order, little-endian.
    pub fn encode(&self) -> (r: Vec<u8>)
        ensures
            r@ == output_bytes(self.reward_amount, self.dummy_2, self.dummy_3, self.dummy_4),
    {
        encode_output(self.reward_amount, self.dummy_2, self.dummy_3, self.dummy_4)
    }
}

/// Output of the instruction: four amounts.
#[derive(Clone, Copy, Debug, PartialEq, Eq)]
pub struct ClaimCollateralRewardOutputWrapper {
    pub reward_amount: u64,
    pub dummy_2: u64,
    pub dummy_3: u64,
    pub dummy_4: u64,
}

impl ClaimCollateralRewardOutputWrapper {
    /// The 32 output bytes: the four amounts, in order, little-endian.
    pub fn encode(&self) -> (r: Vec<u8>)
        ensures
            r@ == output_bytes(self.reward_amount, self.dummy_2, self.dummy_3, self.dummy_4),
    {
        encode_output(self.reward_amount, self.dummy_2, self.dummy_3, self.dummy_4)
    }
}

/// The four output amounts as a tuple, to be read by position.
pub type SupplyOutputTuple = (u64, u64, u64, u64);

/// The four output amounts as a tuple, to be read by position.
pub type UnsupplyOutputTuple = (u64, u64, u64, u64);

/// The four output amounts as a tuple, to be read by position.
pub type StakeOutputTuple = (u64, u64, u64, u64);

/// The four output amounts as a tuple, to be read by position.
pub type UnstakeOutputTuple = (u64, u64, u64, u64);

/// The four output amounts as a tuple, to be read by position.
pub type BorrowOutputTuple = (u64, u64, u64, u64);

/// The four output amounts as a tuple, to be read by position.
pub type RepayOutputTuple = (u64, u64, u64, u64);

/// The four output amounts as a tuple, to be read by position.
pub type CollateralizeOutputTuple = (u64, u64, u64, u64);

/// The four output amounts as a tuple, to be read by position.
pub type UncollateralizeOutputTuple = (u64, u64, u64, u64);

/// The four output amounts as a tuple, to be read by position.
pub type HarvestOutputTuple = (u64, u64, u64, u64);

/// The four output amounts as a tuple, to be read by position.
pub type ClaimCollateralRewardOutputTuple = (u64, u64, u64, u64);

impl From<SupplyOutputWrapper> for SupplyOutputTuple {
    fn from(result: SupplyOutputWrapper) -> Self {
        (result.reserve_out_amount, result.supply_in_amount, result.dummy_3, result.dummy_4)
    }
}

impl FromSpecImpl<SupplyOutputWrapper> for SupplyOutputTuple {
    open spec fn obeys_from_spec() -> bool {
        true
    }

    open spec fn from_spec(v: SupplyOutputWrapper) -> Self {
        (v.reserve_out_amount, v.supply_in_amount, v.dummy_3, v.dummy_4)
    }
}

impl From<UnsupplyOutputWrapper> for UnsupplyOutputTuple {
    fn from(result: UnsupplyOutputWrapper) -> Self {
        (result.supply_out_amount, result.reserve_in_amount, result.dummy_3, result.dummy_4)
    }
}

impl FromSpecImpl<UnsupplyOutputWrapper> for UnsupplyOutputTuple {
    open spec fn obeys_from_spec() -> bool {
        true
    }

    open spec fn from_spec(v: UnsupplyOutputWrapper) -> Self {
        (v.supply_out_amount, v.reserve_in_amount, v.dummy_3, v.dummy_4)
    }
}

impl From<StakeOutputWrapper> for StakeOutputTuple {
    fn from(result: StakeOutputWrapper) -> Self {
        (result.reserve_in_amount, result.dummy_2, result.dummy_3, result.dummy_4)
    }
}

impl FromSpecImpl<StakeOutputWrapper> for StakeOutputTuple {
    open spec fn obeys_from_spec() -> bool {
        true
    }

    open spec fn from_spec(v: StakeOutputWrapper) -> Self {
        (v.reserve_in_amount, v.dummy_2, v.dummy_3, v.dummy_4)
    }
}

impl From<UnstakeOutputWrapper> for UnstakeOutputTuple {
    fn from(result: UnstakeOutputWrapper) -> Self {
        (result.reserve_out_amount, result.dummy_2, result.dummy_3, result.dummy_4)
    }
}

impl FromSpecImpl<UnstakeOutputWrapper> for UnstakeOutputTuple {
    open spec fn obeys_from_spec() -> bool {
        true
    }

    open spec fn from_spec(v: UnstakeOutputWrapper) -> Self {
        (v.reserve_out_amount, v.dummy_2, v.dummy_3, v.dummy_4)
    }
}

impl From<CollateralizeOutputWrapper> for CollateralizeOutputTuple {
    fn from(result: CollateralizeOutputWrapper) -> Self {
        (result.reserve_in_amount, result.dummy_2, result.dummy_3, result.dummy_4)
    }
}

impl FromSpecImpl<CollateralizeOutputWrapper> for CollateralizeOutputTuple {
    open spec fn obeys_from_spec() -> bool {
        true
    }

    open spec fn from_spec(v: CollateralizeOutputWrapper) -> Self {
        (v.reserve_in_amount, v.dummy_2, v.dummy_3, v.dummy_4)
    }
}

impl From<UncollateralizeOutputWrapper> for UncollateralizeOutputTuple {
    fn from(result: UncollateralizeOutputWrapper) -> Self {
        (result.reserve_out_amount, result.dummy_2, result.dummy_3, result.dummy_4)
    }
}

impl FromSpecImpl<UncollateralizeOutputWrapper> for UncollateralizeOutputTuple {
    open spec fn obeys_from_spec() -> bool {
        true
    }

    open spec fn from_spec(v: UncollateralizeOutputWrapper) -> Self {
        (v.reserve_out_amount, v.dummy_2, v.dummy_3, v.dummy_4)
    }
}

impl From<HarvestOutputWrapper> for HarvestOutputTuple {
    fn from(result: HarvestOutputWrapper) -> Self {
        (result.reward_amount, result.dummy_2, result.dummy_3, result.dummy_4)
    }
}

impl FromSpecImpl<HarvestOutputWrapper> for HarvestOutputTuple {
    open spec fn obeys_from_spec() -> bool {
        true
    }

    open spec fn from_spec(v: HarvestOutputWrapper) -> Self {
        (v.reward_amount, v.dummy_2, v.dummy_3, v.dummy_4)
    }
}

impl From<ClaimCollateralRewardOutputWrapper> for ClaimCollateralRewardOutputTuple {
    fn from(result: ClaimCollateralRewardOutputWrapper) -> Self {
        (result.reward_amount, result.dummy_2, result.dummy_3, result.dummy_4)
    }
}

impl FromSpecImpl<ClaimCollateralRewardOutputWrapper> for ClaimCollateralRewardOutputTuple {
    open spec fn obeys_from_spec() -> bool {
        true
    }

    open spec fn from_spec(v: ClaimCollateralRewardOutputWrapper) -> Self {
        (v.reward_amount, v.dummy_2, v.dummy_3, v.dummy_4)
    }
}

impl From<BorrowOutputWrapper> for BorrowOutputTuple {
    fn from(result: BorrowOutputWrapper) -> Self {
        (result.token_out_amount, result.dummy_2, result.dummy_3, result.dummy_4)
    }
}

impl FromSpecImpl<BorrowOutputWrapper> for BorrowOutputTuple {
    open spec fn obeys_from_spec() -> bool {
        true
    }

    open spec fn from_spec(v: BorrowOutputWrapper) -> Self {
        (v.token_out_amount, v.dummy_2, v.dummy_3, v.dummy_4)
    }
}

impl From<RepayOutputWrapper> for RepayOutputTuple {
    fn from(result: RepayOutputWrapper) -> Self {
        (result.token_in_amount, result.dummy_2, result.dummy_3, result.dummy_4)
    }
}

impl FromSpecImpl<RepayOutputWrapper> for RepayOutputTuple {
    open spec fn obeys_from_spec() -> bool {
        true
    }

    open spec fn from_spec(v: RepayOutputWrapper) -> Self {
        (v.token_in_amount, v.dummy_2, v.dummy_3, v.dummy_4)
    }
}

/// The account slots of `supply`.
pub open spec fn supply_slots() -> Seq<(usize, bool, bool)> {
    seq![
        (0usize, false, true),
        (1usize, false, true),
        (2usize, false, true),
        (3usize, false, true),
        (4usize, false, true),
        (5usize, false, true),
        (6usize, false, false),
        (7usize, true, false),
        (8usize, false, false),
    ]
}

/// Supply `token_in_amount` to a reserve: instruction 4 with the amount.
/// The reserve token account (1) and the supplied token account (0) are
/// measured.
pub fn supply(
    program_id: Pubkey,
    remaining_accounts: &[RemainingAccount],
    input: SupplyInputWrapper,
) -> (r: Plan)
    requires
        remaining_accounts@.len() >= 9,
    ensures
        one_call(
            r,
            program_id,
            slot_metas(remaining_accounts@, supply_slots()),
            seq![DEPOSIT_RESERVE_ID] + le64(input.token_in_amount),
            seq![
                OutputSlot::Measured(1usize, Direction::Change),
                OutputSlot::Measured(0usize, Direction::Change),
                OutputSlot::Zero,
                OutputSlot::Zero,
            ],
        ),
{
    let slots: [(usize, bool, bool); 9] = [
            (0, false, true),
            (1, false, true),
            (2, false, true),
            (3, false, true),
            (4, false, true),
            (5, false, true),
            (6, false, false),
            (7, true, false),
            (8, false, false),
        ];
    assert(slots@ =~= supply_slots());
    let accounts = fixed_metas(remaining_accounts, &slots);
    let mut data: Vec<u8> = Vec::new();
    push_byte(&mut data, DEPOSIT_RESERVE_ID);
    assert(data@ =~= seq![DEPOSIT_RESERVE_ID]);
    push_u64(&mut data, input.token_in_amount);
    let mut outputs: Vec<OutputSlot> = Vec::new();
    outputs.push(OutputSlot::Measured(1, Direction::Change));
    outputs.push(OutputSlot::Measured(0, Direction::Change));
    outputs.push(OutputSlot::Zero);
    outputs.push(OutputSlot::Zero);
    assert(outputs@ =~= seq![
        OutputSlot::Measured(1usize, Direction::Change),
        OutputSlot::Measured(0usize, Direction::Change),
        OutputSlot::Zero,
        OutputSlot::Zero,
    ]);
    single_call(Instruction { program_id, accounts, data }, outputs)
}

/// The account slots of `unsupply`.
pub open spec fn unsupply_slots() -> Seq<(usize, bool, bool)> {
    seq![
        (0usize, false, true),
        (1usize, false, true),
        (2usize, false, true),
        (3usize, false, true),
        (4usize, false, false),
        (5usize, false, false),
        (6usize, true, false),
        (7usize, false, false),
        (8usize, false, true),
    ]
}

/// Redeem all reserve tokens: instruction 5 with the largest amount. The
/// reserve token account (0) and the token account (8) are measured.
pub fn unsupply(
    program_id: Pubkey,
    remaining_accounts: &[RemainingAccount],
    _input: UnsupplyInputWrapper,
) -> (r: Plan)
    requires
        remaining_accounts@.len() >= 9,
    ensures
        one_call(
            r,
            program_id,
            slot_metas(remaining_accounts@, unsupply_slots()),
            seq![WITHDRAW_RESERVE_ID] + le64(u64::MAX),
            seq![
                OutputSlot::Measured(8usize, Direction::Change),
                OutputSlot::Measured(0usize, Direction::Change),
                OutputSlot::Zero,
                OutputSlot::Zero,
            ],
        ),
{
    let slots: [(usize, bool, bool); 9] = [
            (0, false, true),
            (1, false, true),
            (2, false, true),
            (3, false, true),
            (4, false, false),
            (5, false, false),
            (6, true, false),
            (7, false, false),
            (8, false, true),
        ];
    assert(slots@ =~= unsupply_slots());
    let accounts = fixed_metas(remaining_accounts, &slots);
    let mut data: Vec<u8> = Vec::new();
    push_byte(&mut data, WITHDRAW_RESERVE_ID);
    assert(data@ =~= seq![WITHDRAW_RESERVE_ID]);
    push_u64(&mut data, u64::MAX);
    let mut outputs: Vec<OutputSlot> = Vec::new();
    outputs.push(OutputSlot::Measured(8, Direction::Change));
    outputs.push(OutputSlot::Measured(0, Direction::Change));
    outputs.push(OutputSlot::Zero);
    outputs.push(OutputSlot::Zero);
    assert(outputs@ =~= seq![
        OutputSlot::Measured(8usize, Direction::Change),
        OutputSlot::Measured(0usize, Direction::Change),
        OutputSlot::Zero,
        OutputSlot::Zero,
    ]);
    single_call(Instruction { program_id, accounts, data }, outputs)
}

/// The account slots of `borrow`.
pub open spec fn borrow_slots() -> Seq<(usize, bool, bool)> {
    seq![
        (0usize, false, true),
        (1usize, false, true),
        (2usize, false, true),
        (3usize, false, true),
        (4usize, false, false),
        (5usize, false, false),
        (6usize, true, false),
        (7usize, false, false),
        (8usize, false, true),
        (9usize, false, false),
        (10usize, false, false),
    ]
}

/// Borrow `borrow_amount`: instruction 10 with the amount. The
/// destination token account (1) is measured.
pub fn borrow(
    program_id: Pubkey,
    remaining_accounts: &[RemainingAccount],
    input: BorrowInputWrapper,
) -> (r: Plan)
    requires
        remaining_accounts@.len() >= 11,
    ensures
        one_call(
            r,
            program_id,
            slot_metas(remaining_accounts@, borrow_slots()),
            seq![BORROW_IX_ID] + le64(input.borrow_amount),
            seq![
                OutputSlot::Measured(1usize, Direction::Change),
                OutputSlot::Zero,
                OutputSlot::Zero,
                OutputSlot::Zero,
            ],
        ),
{
    let slots: [(usize, bool, bool); 11] = [
            (0, false, true),
            (1, false, true),
            (2, false, true),
            (3, false, true),
            (4, false, false),
            (5, false, false),
            (6, true, false),
            (7, false, false),
            (8, false, true),
            (9, false, false),
            (10, false, false),
        ];
    assert(slots@ =~= borrow_slots());
    let accounts = fixed_metas(remaining_accounts, &slots);
    let mut data: Vec<u8> = Vec::new();
    push_byte(&mut data, BORROW_IX_ID);
    assert(data@ =~= seq![BORROW_IX_ID]);
    push_u64(&mut data, input.borrow_amount);
    let mut outputs: Vec<OutputSlot> = Vec::new();
    outputs.push(OutputSlot::Measured(1, Direction::Change));
    outputs.push(OutputSlot::Zero);
    outputs.push(OutputSlot::Zero);
    outputs.push(OutputSlot::Zero);
    assert(outputs@ =~= seq![
        OutputSlot::Measured(1usize, Direction::Change),
        OutputSlot::Zero,
        OutputSlot::Zero,
        OutputSlot::Zero,
    ]);
    single_call(Instruction { program_id, accounts, data }, outputs)
}

/// The account slots of `repay`.
pub open spec fn repay_slots() -> Seq<(usize, bool, bool)> {
    seq![
        (0usize, false, true),
        (1usize, false, true),
        (2usize, false, true),
        (3usize, false, true),
        (4usize, false, false),
        (5usize, true, false),
        (6usize, false, false),
    ]
}

/// Repay `repay_amount`: instruction 11 with the amount, where the
/// largest integer a double holds exactly stands for everything. The source
/// token account (0) is measured.
pub fn repay(
    program_id: Pubkey,
    remaining_accounts: &[RemainingAccount],
    input: RepayInputWrapper,
) -> (r: Plan)
    requires
        remaining_accounts@.len() >= 7,
    ensures
        one_call(
            r,
            program_id,
            slot_metas(remaining_accounts@, repay_slots()),
            seq![REPAY_IX_ID] + le64(larix_repay_amount(input.repay_amount)),
            seq![
                OutputSlot::Measured(0usize, Direction::Change),
                OutputSlot::Zero,
                OutputSlot::Zero,
                OutputSlot::Zero,
            ],
        ),
{
    let slots: [(usize, bool, bool); 7] = [
            (0, false, true),
            (1, false, true),
            (2, false, true),
            (3, false, true),
            (4, false, false),
            (5, true, false),
            (6, false, false),
        ];
    assert(slots@ =~= repay_slots());
    let accounts = fixed_metas(remaining_accounts, &slots);
    let repay_amount = if input.repay_amount == MAGIC_NUMBER { u64::MAX } else { input.repay_amount };
    let mut data: Vec<u8> = Vec::new();
    push_byte(&mut data, REPAY_IX_ID);
    assert(data@ =~= seq![REPAY_IX_ID]);
    push_u64(&mut data, repay_amount);
    let mut outputs: Vec<OutputSlot> = Vec::new();
    outputs.push(OutputSlot::Measured(0, Direction::Change));
    outputs.push(OutputSlot::Zero);
    outputs.push(OutputSlot::Zero);
    outputs.push(OutputSlot::Zero);
    assert(outputs@ =~= seq![
        OutputSlot::Measured(0usize, Direction::Change),
        OutputSlot::Zero,
        OutputSlot::Zero,
        OutputSlot::Zero,
    ]);
    single_call(Instruction { program_id, accounts, data }, outputs)
}

/// The account slots of `stake`.
pub open spec fn stake_slots() -> Seq<(usize, bool, bool)> {
    seq![
        (0usize, false, true),
        (1usize, false, true),
        (2usize, false, true),
        (3usize, false, false),
        (4usize, false, false),
        (5usize, true, true),
        (5usize, true, true),
        (6usize, false, false),
    ]
}

/// Stake all reserve tokens in mining: instruction 18 with the largest
/// amount; account 5 is given twice. The reserve token account (0) is
/// measured.
pub fn stake(
    program_id: Pubkey,
    remaining_accounts: &[RemainingAccount],
    _input: StakeInputWrapper,
) -> (r: Plan)
    requires
        remaining_accounts@.len() >= 7,
    ensures
        one_call(
            r,
            program_id,
            slot_metas(remaining_accounts@, stake_slots()),
            seq![STAKE_ID] + le64(u64::MAX),
            seq![
                OutputSlot::Measured(0usize, Direction::Change),
                OutputSlot::Zero,
                OutputSlot::Zero,
                OutputSlot::Zero,
            ],
        ),
{
    let slots: [(usize, bool, bool); 8] = [
            (0, false, true),
            (1, false, true),
            (2, false, true),
            (3, false, false),
            (4, false, false),
            (5, true, true),
            (5, true, true),
            (6, false, false),
        ];
    assert(slots@ =~= stake_slots());
    let accounts = fixed_metas(remaining_accounts, &slots);
    let mut data: Vec<u8> = Vec::new();
    push_byte(&mut data, STAKE_ID);
    assert(data@ =~= seq![STAKE_ID]);
    push_u64(&mut data, u64::MAX);
    let mut outputs: Vec<OutputSlot> = Vec::new();
    outputs.push(OutputSlot::Measured(0, Direction::Change));
    outputs.push(OutputSlot::Zero);
    outputs.push(OutputSlot::Zero);
    outputs.push(OutputSlot::Zero);
    assert(outputs@ =~= seq![
        OutputSlot::Measured(0usize, Direction::Change),
        OutputSlot::Zero,
        OutputSlot::Zero,
        OutputSlot::Zero,
    ]);
    single_call(Instruction { program_id, accounts, data }, outputs)
}

/// The account slots of `unstake`.
pub open spec fn unstake_slots() -> Seq<(usize, bool, bool)> {
    seq![
        (0usize, false, true),
        (1usize, false, true),
        (2usize, false, true),
        (3usize, false, false),
        (4usize, false, false),
        (5usize, false, false),
        (6usize, true, true),
        (7usize, false, false),
        (8usize, false, false),
    ]
}

/// Unstake `reserve_out_amount` from mining: instruction 19 with the
/// amount. The reserve token account (1) is measured.
pub fn unstake(
    program_id: Pubkey,
    remaining_accounts: &[RemainingAccount],
    input: UnstakeInputWrapper,
) -> (r: Plan)
    requires
        remaining_accounts@.len() >= 9,
    ensures
        one_call(
            r,
            program_id,
            slot_metas(remaining_accounts@, unstake_slots()),
            seq![UNSTAKE_ID] + le64(input.reserve_out_amount),
            seq![
                OutputSlot::Measured(1usize, Direction::Change),
                OutputSlot::Zero,
                OutputSlot::Zero,
                OutputSlot::Zero,
            ],
        ),
{
    let slots: [(usize, bool, bool); 9] = [
            (0, false, true),
            (1, false, true),
            (2, false, true),
            (3, false, false),
            (4, false, false),
            (5, false, false),
            (6, true, true),
            (7, false, false),
            (8, false, false),
        ];
    assert(slots@ =~= unstake_slots());
    let accounts = fixed_metas(remaining_accounts, &slots);
    let mut data: Vec<u8> = Vec::new();
    push_byte(&mut data, UNSTAKE_ID);
    assert(data@ =~= seq![UNSTAKE_ID]);
    push_u64(&mut data, input.reserve_out_amount);
    let mut outputs: Vec<OutputSlot> = Vec::new();
    outputs.push(OutputSlot::Measured(1, Direction::Change));
    outputs.push(OutputSlot::Zero);
    outputs.push(OutputSlot::Zero);
    outputs.push(OutputSlot::Zero);
    assert(outputs@ =~= seq![
        OutputSlot::Measured(1usize, Direction::Change),
        OutputSlot::Zero,
        OutputSlot::Zero,
        OutputSlot::Zero,
    ]);
    single_call(Instruction { program_id, accounts, data }, outputs)
}

/// The account slots of `uncollateralize`.
pub open spec fn uncollateralize_slots() -> Seq<(usize, bool, bool)> {
    seq![
        (0usize, false, true),
        (1usize, false, true),
        (2usize, false, false),
        (3usize, false, true),
        (4usize, false, false),
        (5usize, false, false),
        (6usize, true, false),
        (7usize, false, false),
    ]
}

/// Withdraw `reserve_out_amount` collateral from the obligation:
/// instruction 9 with the amount. The reserve token account (1) is measured.
pub fn uncollateralize(
    program_id: Pubkey,
    remaining_accounts: &[RemainingAccount],
    input: UncollateralizeInputWrapper,
) -> (r: Plan)
    requires
        remaining_accounts@.len() >= 8,
    ensures
        one_call(
            r,
            program_id,
            slot_metas(remaining_accounts@, uncollateralize_slots()),
            seq![WITHDRAW_OBLIGATION_ID] + le64(input.reserve_out_amount),
            seq![
                OutputSlot::Measured(1usize, Direction::Change),
                OutputSlot::Zero,
                OutputSlot::Zero,
                OutputSlot::Zero,
            ],
        ),
{
    let slots: [(usize, bool, bool); 8] = [
            (0, false, true),
            (1, false, true),
            (2, false, false),
            (3, false, true),
            (4, false, false),
            (5, false, false),
            (6, true, false),
            (7, false, false),
        ];
    assert(slots@ =~= uncollateralize_slots());
    let accounts = fixed_metas(remaining_accounts, &slots);
    let mut data: Vec<u8> = Vec::new();
    push_byte(&mut data, WITHDRAW_OBLIGATION_ID);
    assert(data@ =~= seq![WITHDRAW_OBLIGATION_ID]);
    push_u64(&mut data, input.reserve_out_amount);
    let mut outputs: Vec<OutputSlot> = Vec::new();
    outputs.push(OutputSlot::Measured(1, Direction::Change));
    outputs.push(OutputSlot::Zero);
    outputs.push(OutputSlot::Zero);
    outputs.push(OutputSlot::Zero);
    assert(outputs@ =~= seq![
        OutputSlot::Measured(1usize, Direction::Change),
        OutputSlot::Zero,
        OutputSlot::Zero,
        OutputSlot::Zero,
    ]);
    single_call(Instruction { program_id, accounts, data }, outputs)
}

/// The amount a repayment passes on: the magic amount stands for everything.
pub open spec fn larix_repay_amount(amount: u64) -> u64 {
    if amount == MAGIC_NUMBER {
        u64::MAX
    } else {
        amount
    }
}

/// The fixed account slots of `collateralize`.
pub open spec fn collateralize_slots() -> Seq<(usize, bool, bool)> {
    seq![
        (0usize, false, true),
        (1usize, false, true),
        (2usize, false, false),
        (3usize, false, true),
        (4usize, false, false),
        (5usize, false, false),
        (6usize, true, false),
        (6usize, true, false),
        (7usize, false, false),
    ]
}

/// Deposit all reserve tokens into the obligation as collateral: instruction
/// 8 with the largest amount, on eight fixed slots (account 6 twice) and then
/// every account from position 8 on, read-only. The reserve token account (0)
/// is measured.
pub fn collateralize(
    program_id: Pubkey,
    remaining_accounts: &[RemainingAccount],
    _input: CollateralizeInputWrapper,
) -> (r: Plan)
    requires
        remaining_accounts@.len() >= 8,
    ensures
        one_call(
            r,
            program_id,
            slot_metas(remaining_accounts@, collateralize_slots()) + readonly_tail(
                remaining_accounts@,
                8,
            ),
            seq![COLLATERALIZE_ID] + le64(u64::MAX),
            seq![OutputSlot::Measured(0usize, Direction::Change), OutputSlot::Zero, OutputSlot::Zero, OutputSlot::Zero],
        ),
{
    let slots: [(usize, bool, bool); 9] = [
        (0, false, true),
        (1, false, true),
        (2, false, false),
        (3, false, true),
        (4, false, false),
        (5, false, false),
        (6, true, false),
        (6, true, false),
        (7, false, false),
    ];
    assert(slots@ =~= collateralize_slots());
    let mut accounts = fixed_metas(remaining_accounts, &slots);
    push_readonly_tail(&mut accounts, remaining_accounts, 8);
    let mut data: Vec<u8> = Vec::new();
    push_byte(&mut data, COLLATERALIZE_ID);
    assert(data@ =~= seq![COLLATERALIZE_ID]);
    push_u64(&mut data, u64::MAX);
    let outputs = vec![OutputSlot::Measured(0, Direction::Change), OutputSlot::Zero, OutputSlot::Zero, OutputSlot::Zero];
    single_call(Instruction { program_id, accounts, data }, outputs)
}

/// The fixed account slots of `harvest` and `claim_collateral_reward`.
pub open spec fn reward_slots() -> Seq<(usize, bool, bool)> {
    seq![
        (0usize, false, true),
        (1usize, false, true),
        (2usize, false, true),
        (3usize, true, false),
        (4usize, false, false),
        (5usize, false, false),
        (6usize, false, false),
    ]
}

/// A reward claim: instruction `id` on seven fixed slots and then every
/// account from position 7 on, read-only. The reward token account (2) is
/// measured.
fn reward_claim(program_id: Pubkey, remaining_accounts: &[RemainingAccount], id: u8) -> (r: Plan)
    requires
        remaining_accounts@.len() >= 7,
    ensures
        one_call(
            r,
            program_id,
            slot_metas(remaining_accounts@, reward_slots()) + readonly_tail(remaining_accounts@, 7),
            seq![id],
            seq![OutputSlot::Measured(2usize, Direction::Change), OutputSlot::Zero, OutputSlot::Zero, OutputSlot::Zero],
        ),
{
    let slots: [(usize, bool, bool); 7] = [
        (0, false, true),
        (1, false, true),
        (2, false, true),
        (3, true, false),
        (4, false, false),
        (5, false, false),
        (6, false, false),
    ];
    assert(slots@ =~= reward_slots());
    let mut accounts = fixed_metas(remaining_accounts, &slots);
    push_readonly_tail(&mut accounts, remaining_accounts, 7);
    let mut data: Vec<u8> = Vec::new();
    push_byte(&mut data, id);
    assert(data@ =~= seq![id]);
    let outputs = vec![OutputSlot::Measured(2, Direction::Change), OutputSlot::Zero, OutputSlot::Zero, OutputSlot::Zero];
    single_call(Instruction { program_id, accounts, data }, outputs)
}

/// Claim mining rewards: instruction 20, with the accounts of a reward
/// claim. The reward token account (2) is measured.
pub fn harvest(
    program_id: Pubkey,
    remaining_accounts: &[RemainingAccount],
    _input: HarvestInputWrapper,
) -> (r: Plan)
    requires
        remaining_accounts@.len() >= 7,
    ensures
        one_call(
            r,
            program_id,
            slot_metas(remaining_accounts@, reward_slots()) + readonly_tail(remaining_accounts@, 7),
            seq![HARVEST_ID],
            seq![OutputSlot::Measured(2usize, Direction::Change), OutputSlot::Zero, OutputSlot::Zero, OutputSlot::Zero],
        ),
{
    reward_claim(program_id, remaining_accounts, HARVEST_ID)
}

/// Claim the rewards of obligation collateral: instruction 21, with the
/// accounts of a reward claim. The reward token account (2) is measured.
pub fn claim_collateral_reward(
    program_id: Pubkey,
    remaining_accounts: &[RemainingAccount],
    _input: ClaimCollateralRewardInputWrapper,
) -> (r: Plan)
    requires
        remaining_accounts@.len() >= 7,
    ensures
        one_call(
            r,
            program_id,
            slot_metas(remaining_accounts@, reward_slots()) + readonly_tail(remaining_accounts@, 7),
            seq![CLAIM_ID],
            seq![OutputSlot::Measured(2usize, Direction::Change), OutputSlot::Zero, OutputSlot::Zero, OutputSlot::Zero],
        ),
{
    reward_claim(program_id, remaining_accounts, CLAIM_ID)
}


} // verus!
