//! Adapter for Raydium pools and farms: what each of its instructions invokes and
//! how its outputs are read.
use vstd::prelude::*;
use vstd::std_specs::convert::FromSpecImpl;
use crate::adapter_common::{
    AccountInfos, AccountMeta, Direction, ErrorCode, InputError, Instruction, Invocation, OutputSlot,
    Plan, RemainingAccount, call_is, encode_output, fixed_metas, le16, le32, load_all_accounts,
    load_remaining_accounts, loaded_meta, loaded_metas, meta, one_call, output_bytes, outputs_are,
    invoke_all, picked_infos, plan_of, push_readonly_tail, push_u16, read_array30_at, read_bool_at,
    read_u16_at, read_u32_at, read_u64_at, read_u8_at, readonly_tail, sighash, sighash_spec,
    single_call, slot_metas,
};
use crate::pack::{bool_byte, le64, push_byte, push_bytes, push_u64};
use crate::pubkey::Pubkey;
use crate::raydium_price::PoolDirectionP;

verus! {

/// Swap with a base amount in.
pub const SWAP_IX: u8 = 9;

/// Deposit into a pool.
pub const ADD_LP_IX: u8 = 3;

/// Withdraw from a pool.
pub const REMOVE_LP_IX: u8 = 4;

/// Input of the instruction, as its bytes hold it.
#[derive(Clone, Copy, Debug, PartialEq, Eq)]
pub struct SwapInputWrapper {
    pub swap_in_amount: u64,
    pub swap_min_out_amount: u64,
}

impl SwapInputWrapper {
    /// Decode the input from its first 16 bytes, each field little-endian; later bytes are ignored.
    pub fn decode(input: &[u8]) -> (r: Result<SwapInputWrapper, InputError>)
        ensures
            input@.len() < 16 ==> r == Err::<SwapInputWrapper, InputError>(InputError::TooShort),
            input@.len() >= 16 ==> (r matches Ok(v) && le64(v.swap_in_amount) == input@.subrange(0, 8) && le64(v.swap_min_out_amount) == input@.subrange(8, 16)),
    {
        let swap_in_amount = read_u64_at(input, 0)?;
        let swap_min_out_amount = read_u64_at(input, 8)?;
        Ok(SwapInputWrapper { swap_in_amount, swap_min_out_amount })
    }
}

/// Input of the instruction, as its bytes hold it.
#[derive(Clone, Copy, Debug, PartialEq, Eq)]
pub struct AddLiquidityInputWrapper {
    pub token_in_amount: u64,
    pub pool_direction: u8,
}

impl AddLiquidityInputWrapper {
    /// Decode the input from its first 9 bytes, each field little-endian; later bytes are ignored.
    pub fn decode(input: &[u8]) -> (r: Result<AddLiquidityInputWrapper, InputError>)
        ensures
            input@.len() < 9 ==> r == Err::<AddLiquidityInputWrapper, InputError>(InputError::TooShort),
            input@.len() >= 9 ==> (r matches Ok(v) && le64(v.token_in_amount) == input@.subrange(0, 8) && v.pool_direction == input@[8]),
    {
        let token_in_amount = read_u64_at(input, 0)?;
        let pool_direction = read_u8_at(input, 8)?;
        Ok(AddLiquidityInputWrapper { token_in_amount, pool_direction })
    }
}

/// Input of the instruction, as its bytes hold it.
#[derive(Clone, Copy, Debug, PartialEq, Eq)]
pub struct RemoveLiquidityInputWrapper {
    pub lp_amount: u64,
    pub pool_direction: u8,
}

impl RemoveLiquidityInputWrapper {
    /// Decode the input from its first 9 bytes, each field little-endian; later bytes are ignored.
    pub fn decode(input: &[u8]) -> (r: Result<RemoveLiquidityInputWrapper, InputError>)
        ensures
            input@.len() < 9 ==> r == Err::<RemoveLiquidityInputWrapper, InputError>(InputError::TooShort),
            input@.len() >= 9 ==> (r matches Ok(v) && le64(v.lp_amount) == input@.subrange(0, 8) && v.pool_direction == input@[8]),
    {
        let lp_amount = read_u64_at(input, 0)?;
        let pool_direction = read_u8_at(input, 8)?;
        Ok(RemoveLiquidityInputWrapper { lp_amount, pool_direction })
    }
}

/// Input of the instruction, as its bytes hold it.
#[derive(Clone, Copy, Debug, PartialEq, Eq)]
pub struct StakeInputWrapper {
    pub lp_amount: u64,
    pub version: u8,
}

impl StakeInputWrapper {
    /// Decode the input from its first 9 bytes, each field little-endian; later bytes are ignored.
    pub fn decode(input: &[u8]) -> (r: Result<StakeInputWrapper, InputError>)
        ensures
            input@.len() < 9 ==> r == Err::<StakeInputWrapper, InputError>(InputError::TooShort),
            input@.len() >= 9 ==> (r matches Ok(v) && le64(v.lp_amount) == input@.subrange(0, 8) && v.version == input@[8]),
    {
        let lp_amount = read_u64_at(input, 0)?;
        let version = read_u8_at(input, 8)?;
        Ok(StakeInputWrapper { lp_amount, version })
    }
}

/// Input of the instruction, as its bytes hold it.
#[derive(Clone, Copy, Debug, PartialEq, Eq)]
pub struct UnstakeInputWrapper {
    pub share_amount: u64,
    pub version: u8,
}

impl UnstakeInputWrapper {
    /// Decode the input from its first 9 bytes, each field little-endian; later bytes are ignored.
    pub fn decode(input: &[u8]) -> (r: Result<UnstakeInputWrapper, InputError>)
        ensures
            input@.len() < 9 ==> r == Err::<UnstakeInputWrapper, InputError>(InputError::TooShort),
            input@.len() >= 9 ==> (r matches Ok(v) && le64(v.share_amount) == input@.subrange(0, 8) && v.version == input@[8]),
    {
        let share_amount = read_u64_at(input, 0)?;
        let version = read_u8_at(input, 8)?;
        Ok(UnstakeInputWrapper { share_amount, version })
    }
}

/// Input of the instruction, as its bytes hold it.
#[derive(Clone, Copy, Debug, PartialEq, Eq)]
pub struct HarvestInputWrapper {
    pub version: u8,
}

impl HarvestInputWrapper {
    /// Decode the input from its first 1 bytes, each field little-endian; later bytes are ignored.
    pub fn decode(input: &[u8]) -> (r: Result<HarvestInputWrapper, InputError>)
        ensures
            input@.len() < 1 ==> r == Err::<HarvestInputWrapper, InputError>(InputError::TooShort),
            input@.len() >= 1 ==> (r matches Ok(v) && v.version == input@[0]),
    {
        let version = read_u8_at(input, 0)?;
        Ok(HarvestInputWrapper { version })
    }
}

/// Output of the instruction: four amounts.
#[derive(Clone, Copy, Debug, PartialEq, Eq)]
pub struct SwapOutputWrapper {
    pub swap_out_amount: u64,
    pub dummy_2: u64,
    pub dummy_3: u64,
    pub dummy_4: u64,
}

impl SwapOutputWrapper {
    /// The 32 output bytes: the four amounts, in order, little-endian.
    pub fn encode(&self) -> (r: Vec<u8>)
        ensures
            r@ == output_bytes(self.swap_out_amount, self.dummy_2, self.dummy_3, self.dummy_4),
    {
        encode_output(self.swap_out_amount, self.dummy_2, self.dummy_3, self.dummy_4)
    }
}

/// Output of the instruction: four amounts.
#[derive(Clone, Copy, Debug, PartialEq, Eq)]
pub struct AddLiquidityOutputWrapper {
    pub lp_amount: u64,
    pub dummy_2: u64,
    pub dummy_3: u64,
    pub dummy_4: u64,
}

impl AddLiquidityOutputWrapper {
    /// The 32 output bytes: the four amounts, in order, little-endian.
    pub fn encode(&self) -> (r: Vec<u8>)
        ensures
            r@ == output_bytes(self.lp_amount, self.dummy_2, self.dummy_3, self.dummy_4),
    {
        encode_output(self.lp_amount, self.dummy_2, self.dummy_3, self.dummy_4)
    }
}

/// Output of the instruction: four amounts.
#[derive(Clone, Copy, Debug, PartialEq, Eq)]
pub struct RemoveLiquidityOutputWrapper {
    pub token_a_amount: u64,
    pub token_b_amount: u64,
    pub lp_amount: u64,
    pub dummy_4: u64,
}

impl RemoveLiquidityOutputWrapper {
    /// The 32 output bytes: the four amounts, in order, little-endian.
    pub fn encode(&self) -> (r: Vec<u8>)
        ensures
            r@ == output_bytes(self.token_a_amount, self.token_b_amount, self.lp_amount, self.dummy_4),
    {
        encode_output(self.token_a_amount, self.token_b_amount, self.lp_amount, self.dummy_4)
    }
}

/// Output of the instruction: four amounts.
#[derive(Clone, Copy, Debug, PartialEq, Eq)]
pub struct StakeOutputWrapper {
    pub share_amount: u64,
    pub dummy_2: u64,
    pub dummy_3: u64,
    pub dummy_4: u64,
}

impl StakeOutputWrapper {
    /// The 32 output bytes: the four amounts, in order, little-endian.
    pub fn encode(&self) -> (r: Vec<u8>)
        ensures
            r@ == output_bytes(self.share_amount, self.dummy_2, self.dummy_3, self.dummy_4),
    {
        encode_output(self.share_amount, self.dummy_2, self.dummy_3, self.dummy_4)
    }
}

/// Output of the instruction: four amounts.
#[derive(Clone, Copy, Debug, PartialEq, Eq)]
pub struct UnstakeOutputWrapper {
    pub lp_amount: u64,
    pub dummy_2: u64,
    pub dummy_3: u64,
    pub dummy_4: u64,
}

impl UnstakeOutputWrapper {
    /// The 32 output bytes: the four amounts, in order, little-endian.
    pub fn encode(&self) -> (r: Vec<u8>)
        ensures
            r@ == output_bytes(self.lp_amount, self.dummy_2, self.dummy_3, self.dummy_4),
    {
        encode_output(self.lp_amount, self.dummy_2, self.dummy_3, self.dummy_4)
    }
}

/// Output of the instruction: four amounts.
#[derive(Clone, Copy, Debug, PartialEq, Eq)]
pub struct HarvestOutputWrapper {
    pub reward_a_amount: u64,
    pub reward_b_amount: u64,
    pub dummy_3: u64,
    pub dummy_4: u64,
}

impl HarvestOutputWrapper {
    /// The 32 output bytes: the four amounts, in order, little-endian.
    pub fn encode(&self) -> (r: Vec<u8>)
        ensures
            r@ == output_bytes(self.reward_a_amount, self.reward_b_amount, self.dummy_3, self.dummy_4),
    {
        encode_output(self.reward_a_amount, self.reward_b_amount, self.dummy_3, self.dummy_4)
    }
}

/// The four output amounts as a tuple, to be read by position.
pub type SwapOutputTuple = (u64, u64, u64, u64);

/// The four output amounts as a tuple, to be read by position.
pub type AddLiquidityOutputTuple = (u64, u64, u64, u64);

/// The four output amounts as a tuple, to be read by position.
pub type RemoveLiquidityOutputTuple = (u64, u64, u64, u64);

/// The four output amounts as a tuple, to be read by position.
pub type StakeOutputTuple = (u64, u64, u64, u64);

/// The four output amounts as a tuple, to be read by position.
pub type UnstakeOutputTuple = (u64, u64, u64, u64);

/// The four output amounts as a tuple, to be read by position.
pub type HarvestOutputTuple = (u64, u64, u64, u64);

impl From<SwapOutputWrapper> for SwapOutputTuple {
    fn from(result: SwapOutputWrapper) -> Self {
        (result.swap_out_amount, result.dummy_2, result.dummy_3, result.dummy_4)
    }
}

impl FromSpecImpl<SwapOutputWrapper> for SwapOutputTuple {
    open spec fn obeys_from_spec() -> bool {
        true
    }

    open spec fn from_spec(v: SwapOutputWrapper) -> Self {
        (v.swap_out_amount, v.dummy_2, v.dummy_3, v.dummy_4)
    }
}

impl From<AddLiquidityOutputWrapper> for AddLiquidityOutputTuple {
    fn from(result: AddLiquidityOutputWrapper) -> Self {
        (result.lp_amount, result.dummy_2, result.dummy_3, result.dummy_4)
    }
}

impl FromSpecImpl<AddLiquidityOutputWrapper> for AddLiquidityOutputTuple {
    open spec fn obeys_from_spec() -> bool {
        true
    }

    open spec fn from_spec(v: AddLiquidityOutputWrapper) -> Self {
        (v.lp_amount, v.dummy_2, v.dummy_3, v.dummy_4)
    }
}

impl From<RemoveLiquidityOutputWrapper> for RemoveLiquidityOutputTuple {
    fn from(result: RemoveLiquidityOutputWrapper) -> Self {
        (result.token_a_amount, result.token_b_amount, result.lp_amount, result.dummy_4)
    }
}

impl FromSpecImpl<RemoveLiquidityOutputWrapper> for RemoveLiquidityOutputTuple {
    open spec fn obeys_from_spec() -> bool {
        true
    }

    open spec fn from_spec(v: RemoveLiquidityOutputWrapper) -> Self {
        (v.token_a_amount, v.token_b_amount, v.lp_amount, v.dummy_4)
    }
}

impl From<StakeOutputWrapper> for StakeOutputTuple {
    fn from(result: StakeOutputWrapper) -> Self {
        (result.share_amount, result.dummy_2, result.dummy_3, result.dummy_4)
    }
}

impl FromSpecImpl<StakeOutputWrapper> for StakeOutputTuple {
    open spec fn obeys_from_spec() -> bool {
        true
    }

    open spec fn from_spec(v: StakeOutputWrapper) -> Self {
        (v.share_amount, v.dummy_2, v.dummy_3, v.dummy_4)
    }
}

impl From<UnstakeOutputWrapper> for UnstakeOutputTuple {
    fn from(result: UnstakeOutputWrapper) -> Self {
        (result.lp_amount, result.dummy_2, result.dummy_3, result.dummy_4)
    }
}

impl FromSpecImpl<UnstakeOutputWrapper> for UnstakeOutputTuple {
    open spec fn obeys_from_spec() -> bool {
        true
    }

    open spec fn from_spec(v: UnstakeOutputWrapper) -> Self {
        (v.lp_amount, v.dummy_2, v.dummy_3, v.dummy_4)
    }
}

impl From<HarvestOutputWrapper> for HarvestOutputTuple {
    fn from(result: HarvestOutputWrapper) -> Self {
        (result.reward_a_amount, result.reward_b_amount, result.dummy_3, result.dummy_4)
    }
}

impl FromSpecImpl<HarvestOutputWrapper> for HarvestOutputTuple {
    open spec fn obeys_from_spec() -> bool {
        true
    }

    open spec fn from_spec(v: HarvestOutputWrapper) -> Self {
        (v.reward_a_amount, v.reward_b_amount, v.dummy_3, v.dummy_4)
    }
}

/// The account slots of `swap`.
pub open spec fn swap_slots() -> Seq<(usize, bool, bool)> {
    seq![
        (0usize, false, false),
        (1usize, false, true),
        (2usize, false, false),
        (3usize, false, true),
        (4usize, false, true),
        (5usize, false, true),
        (6usize, false, true),
        (7usize, false, false),
        (8usize, false, true),
        (9usize, false, true),
        (10usize, false, true),
        (11usize, false, true),
        (12usize, false, true),
        (13usize, false, true),
        (14usize, false, false),
        (15usize, false, true),
        (16usize, false, true),
        (17usize, true, false),
    ]
}

/// Swap `swap_in_amount` for at least `swap_min_out_amount`: instruction 9
/// with both amounts. The gain of the destination token account (16) is
/// measured.
pub fn swap(
    program_id: Pubkey,
    remaining_accounts: &[RemainingAccount],
    input: SwapInputWrapper,
) -> (r: Plan)
    requires
        remaining_accounts@.len() >= 18,
    ensures
        one_call(
            r,
            program_id,
            slot_metas(remaining_accounts@, swap_slots()),
            seq![SWAP_IX] + le64(input.swap_in_amount) + le64(input.swap_min_out_amount),
            seq![
                OutputSlot::Measured(16usize, Direction::Gain),
                OutputSlot::Zero,
                OutputSlot::Zero,
                OutputSlot::Zero,
            ],
        ),
{
    let slots: [(usize, bool, bool); 18] = [
            (0, false, false),
            (1, false, true),
            (2, false, false),
            (3, false, true),
            (4, false, true),
            (5, false, true),
            (6, false, true),
            (7, false, false),
            (8, false, true),
            (9, false, true),
            (10, false, true),
            (11, false, true),
            (12, false, true),
            (13, false, true),
            (14, false, false),
            (15, false, true),
            (16, false, true),
            (17, true, false),
        ];
    assert(slots@ =~= swap_slots());
    let accounts = fixed_metas(remaining_accounts, &slots);
    let mut data: Vec<u8> = Vec::new();
    push_byte(&mut data, SWAP_IX);
    assert(data@ =~= seq![SWAP_IX]);
    push_u64(&mut data, input.swap_in_amount);
    push_u64(&mut data, input.swap_min_out_amount);
    let mut outputs: Vec<OutputSlot> = Vec::new();
    outputs.push(OutputSlot::Measured(16, Direction::Gain));
    outputs.push(OutputSlot::Zero);
    outputs.push(OutputSlot::Zero);
    outputs.push(OutputSlot::Zero);
    assert(outputs@ =~= seq![
        OutputSlot::Measured(16usize, Direction::Gain),
        OutputSlot::Zero,
        OutputSlot::Zero,
        OutputSlot::Zero,
    ]);
    single_call(Instruction { program_id, accounts, data }, outputs)
}

/// The account slots of `remove_liquidity`.
pub open spec fn remove_liquidity_slots() -> Seq<(usize, bool, bool)> {
    seq![
        (0usize, false, false),
        (1usize, false, true),
        (2usize, false, false),
        (3usize, false, true),
        (4usize, false, true),
        (5usize, false, true),
        (6usize, false, true),
        (7usize, false, true),
        (8usize, false, true),
        (9usize, false, true),
        (10usize, false, false),
        (11usize, false, true),
        (12usize, false, true),
        (13usize, false, true),
        (14usize, false, false),
        (15usize, false, true),
        (16usize, false, true),
        (17usize, false, true),
        (18usize, true, false),
        (19usize, false, true),
        (20usize, false, true),
        (21usize, false, true),
    ]
}

/// Remove `lp_amount` pool tokens: instruction 4 with the amount. The gains
/// of the coin (16) and pc (17) token accounts and the loss of the pool
/// token account (15) are measured.
pub fn remove_liquidity(
    program_id: Pubkey,
    remaining_accounts: &[RemainingAccount],
    input: RemoveLiquidityInputWrapper,
) -> (r: Plan)
    requires
        remaining_accounts@.len() >= 22,
    ensures
        one_call(
            r,
            program_id,
            slot_metas(remaining_accounts@, remove_liquidity_slots()),
            seq![REMOVE_LP_IX] + le64(input.lp_amount),
            seq![
                OutputSlot::Measured(16usize, Direction::Gain),
                OutputSlot::Measured(17usize, Direction::Gain),
                OutputSlot::Measured(15usize, Direction::Loss),
                OutputSlot::Zero,
            ],
        ),
{
    let slots: [(usize, bool, bool); 22] = [
            (0, false, false),
            (1, false, true),
            (2, false, false),
            (3, false, true),
            (4, false, true),
            (5, false, true),
            (6, false, true),
            (7, false, true),
            (8, false, true),
            (9, false, true),
            (10, false, false),
            (11, false, true),
            (12, false, true),
            (13, false, true),
            (14, false, false),
            (15, false, true),
            (16, false, true),
            (17, false, true),
            (18, true, false),
            (19, false, true),
            (20, false, true),
            (21, false, true),
        ];
    assert(slots@ =~= remove_liquidity_slots());
    let accounts = fixed_metas(remaining_accounts, &slots);
    let mut data: Vec<u8> = Vec::new();
    push_byte(&mut data, REMOVE_LP_IX);
    assert(data@ =~= seq![REMOVE_LP_IX]);
    push_u64(&mut data, input.lp_amount);
    let mut outputs: Vec<OutputSlot> = Vec::new();
    outputs.push(OutputSlot::Measured(16, Direction::Gain));
    outputs.push(OutputSlot::Measured(17, Direction::Gain));
    outputs.push(OutputSlot::Measured(15, Direction::Loss));
    outputs.push(OutputSlot::Zero);
    assert(outputs@ =~= seq![
        OutputSlot::Measured(16usize, Direction::Gain),
        OutputSlot::Measured(17usize, Direction::Gain),
        OutputSlot::Measured(15usize, Direction::Loss),
        OutputSlot::Zero,
    ]);
    single_call(Instruction { program_id, accounts, data }, outputs)
}

/// Which side of a pool a single-token deposit comes in on, as the
/// instruction input names it.
#[derive(Clone, Copy, Debug, PartialEq, Eq)]
pub enum PoolDirection {
    /// The amount is of the pc token; the coin amount is priced from it
    Obverse,
    /// The amount is of the coin token; the pc amount is priced from it
    Reverse,
}

/// The direction a byte names: 0 is obverse, 1 reverse, any other is
/// `UnsupportedPoolDirection`.
pub fn pool_direction(direction: u8) -> (r: Result<PoolDirectionP, ErrorCode>)
    ensures
        direction == 0 ==> r == Ok::<PoolDirectionP, ErrorCode>(PoolDirectionP::Obverse),
        direction == 1 ==> r == Ok::<PoolDirectionP, ErrorCode>(PoolDirectionP::Reverse),
        direction > 1 ==> r == Err::<PoolDirectionP, ErrorCode>(ErrorCode::UnsupportedPoolDirection),
{
    match direction {
        0 => Ok(PoolDirectionP::Obverse),
        1 => Ok(PoolDirectionP::Reverse),
        _ => Err(ErrorCode::UnsupportedPoolDirection),
    }
}

/// The account slots of `add_liquidity`.
pub open spec fn add_liquidity_slots() -> Seq<(usize, bool, bool)> {
    seq![
        (0usize, false, false),
        (1usize, false, true),
        (2usize, false, false),
        (3usize, false, false),
        (4usize, false, true),
        (5usize, false, true),
        (6usize, false, true),
        (7usize, false, true),
        (8usize, false, false),
        (9usize, false, true),
        (10usize, false, true),
        (11usize, false, true),
        (12usize, true, false),
        (13usize, false, false),
    ]
}

/// The coin amount, pc amount and fixed side of a deposit of `token_in_amount`
/// in `direction`, the other side priced at `priced_amount`.
pub open spec fn add_liquidity_amounts(direction: u8, token_in_amount: u64, priced_amount: u64) -> (
    u64,
    u64,
    u64,
) {
    if direction == 0 {
        (priced_amount, token_in_amount, 0)
    } else {
        (token_in_amount, priced_amount, 1)
    }
}

/// What `add_liquidity` gives: for a supported direction the one call of
/// instruction 3 with the coin amount, the pc amount and the fixed side, the
/// gain of the pool token account (11) measured; for any other direction
/// `UnsupportedPoolDirection`.
pub open spec fn add_liquidity_outcome(
    program_id: Pubkey,
    remaining_accounts: Seq<RemainingAccount>,
    input: AddLiquidityInputWrapper,
    priced_amount: u64,
    r: Result<Plan, ErrorCode>,
) -> bool {
    &&& input.pool_direction > 1 ==> r == Err::<Plan, ErrorCode>(ErrorCode::UnsupportedPoolDirection)
    &&& input.pool_direction <= 1 ==> (r matches Ok(p) && one_call(
        p,
        program_id,
        slot_metas(remaining_accounts, add_liquidity_slots()),
        seq![ADD_LP_IX] + le64(
            add_liquidity_amounts(input.pool_direction, input.token_in_amount, priced_amount).0,
        ) + le64(
            add_liquidity_amounts(input.pool_direction, input.token_in_amount, priced_amount).1,
        ) + le64(
            add_liquidity_amounts(input.pool_direction, input.token_in_amount, priced_amount).2,
        ),
        seq![
            OutputSlot::Measured(11usize, Direction::Gain),
            OutputSlot::Zero,
            OutputSlot::Zero,
            OutputSlot::Zero,
        ],
    ))
}

/// Where a deposit's amounts go in its 25 bytes of instruction data: the
/// instruction number 3, then the coin amount, the pc amount and the fixed
/// side, eight little-endian bytes each. Direction 0 deposits the input
/// amount as pc, the priced amount as coin, and fixes the pc side (0);
/// direction 1 deposits the input amount as coin, the priced amount as pc,
/// and fixes the coin side (1).
pub proof fn lemma_add_liquidity_amount_places(
    program_id: Pubkey,
    remaining_accounts: Seq<RemainingAccount>,
    input: AddLiquidityInputWrapper,
    priced_amount: u64,
    r: Result<Plan, ErrorCode>,
)
    requires
        input.pool_direction <= 1,
        add_liquidity_outcome(program_id, remaining_accounts, input, priced_amount, r),
    ensures
        r matches Ok(p) && ({
            let data = p.invocations@[0].instruction.data@;
            &&& data.len() == 25
            &&& data[0] == 3
            &&& input.pool_direction == 0 ==> data.subrange(1, 9) == le64(priced_amount)
                && data.subrange(9, 17) == le64(input.token_in_amount) && data.subrange(17, 25)
                == le64(0)
            &&& input.pool_direction == 1 ==> data.subrange(1, 9) == le64(input.token_in_amount)
                && data.subrange(9, 17) == le64(priced_amount) && data.subrange(17, 25) == le64(1)
        }),
{
    crate::pack::lemma_le_roundtrips();
    let p = r->Ok_0;
    let data = p.invocations@[0].instruction.data@;
    let t = add_liquidity_amounts(input.pool_direction, input.token_in_amount, priced_amount);
    let a = le64(t.0);
    let b = le64(t.1);
    let c = le64(t.2);
    assert(data == seq![ADD_LP_IX] + a + b + c);
    assert(data.subrange(1, 9) =~= a);
    assert(data.subrange(9, 17) =~= b);
    assert(data.subrange(17, 25) =~= c);
}

/// Add `token_in_amount` of one token to the pool, the other token's amount
/// `priced_amount` having been priced from it: instruction 3 with the coin
/// amount, the pc amount and which side is fixed (0 for pc, 1 for coin).
/// Direction 0 deposits the amount as pc, 1 as coin; any other direction is
/// `UnsupportedPoolDirection`. The gain of the pool token account (11) is
/// measured.
pub fn add_liquidity(
    program_id: Pubkey,
    remaining_accounts: &[RemainingAccount],
    input: AddLiquidityInputWrapper,
    priced_amount: u64,
) -> (r: Result<Plan, ErrorCode>)
    requires
        remaining_accounts@.len() >= 12,
        input.pool_direction <= 1 ==> remaining_accounts@.len() >= 14,
    ensures
        add_liquidity_outcome(program_id, remaining_accounts@, input, priced_amount, r),
{
    let direction = pool_direction(input.pool_direction)?;
    let (coin_amount, pc_amount, fixed_coin): (u64, u64, u64) = match direction {
        PoolDirectionP::Obverse => (priced_amount, input.token_in_amount, 0),
        PoolDirectionP::Reverse => (input.token_in_amount, priced_amount, 1),
    };
    let slots: [(usize, bool, bool); 14] = [
        (0, false, false),
        (1, false, true),
        (2, false, false),
        (3, false, false),
        (4, false, true),
        (5, false, true),
        (6, false, true),
        (7, false, true),
        (8, false, false),
        (9, false, true),
        (10, false, true),
        (11, false, true),
        (12, true, false),
        (13, false, false),
    ];
    assert(slots@ =~= add_liquidity_slots());
    let accounts = fixed_metas(remaining_accounts, &slots);
    let mut data: Vec<u8> = Vec::new();
    push_byte(&mut data, ADD_LP_IX);
    assert(data@ =~= seq![ADD_LP_IX]);
    push_u64(&mut data, coin_amount);
    push_u64(&mut data, pc_amount);
    push_u64(&mut data, fixed_coin);
    let outputs = vec![
        OutputSlot::Measured(11, Direction::Gain),
        OutputSlot::Zero,
        OutputSlot::Zero,
        OutputSlot::Zero,
    ];
    Ok(single_call(Instruction { program_id, accounts, data }, outputs))
}

/// The account slots of a farm instruction.
pub open spec fn stake_slots() -> Seq<(usize, bool, bool)> {
    seq![
        (0usize, false, true),
        (1usize, false, false),
        (2usize, false, true),
        (3usize, true, false),
        (4usize, false, true),
        (5usize, false, true),
        (6usize, false, true),
        (7usize, false, true),
        (8usize, false, false),
        (9usize, false, false),
    ]
}

/// The accounts of a farm instruction: ten fixed slots, and two more
/// writable ones (10 and 11) when there are more than ten accounts.
pub open spec fn stake_accounts(accounts: Seq<RemainingAccount>) -> Seq<AccountMeta> {
    if accounts.len() > 10 {
        slot_metas(accounts, stake_slots()) + seq![meta(accounts[10].key, false, true), meta(accounts[11].key, false, true)]
    } else {
        slot_metas(accounts, stake_slots())
    }
}

/// A farm instruction: instruction `ix` with `amount`, on the farm accounts.
/// There must be ten accounts, or at least twelve.
pub fn invoke_stake(program_id: Pubkey, remaining_accounts: &[RemainingAccount], ix: u8, amount: u64) -> (r:
    Instruction)
    requires
        remaining_accounts@.len() >= 10,
        remaining_accounts@.len() != 11,
    ensures
        r.program_id == program_id,
        r.accounts@ == stake_accounts(remaining_accounts@),
        r.data@ == seq![ix] + le64(amount),
{
    let slots: [(usize, bool, bool); 10] = [
        (0, false, true),
        (1, false, false),
        (2, false, true),
        (3, true, false),
        (4, false, true),
        (5, false, true),
        (6, false, true),
        (7, false, true),
        (8, false, false),
        (9, false, false),
    ];
    assert(slots@ =~= stake_slots());
    let mut accounts = fixed_metas(remaining_accounts, &slots);
    if remaining_accounts.len() > 10 {
        accounts.push(AccountMeta::new(remaining_accounts[10].key, false));
        accounts.push(AccountMeta::new(remaining_accounts[11].key, false));
    }
    let mut data: Vec<u8> = Vec::new();
    push_byte(&mut data, ix);
    assert(data@ =~= seq![ix]);
    push_u64(&mut data, amount);
    Instruction { program_id, accounts, data }
}

/// The farm instruction a version stakes with: 10 for version 3, 11 for 5.
pub open spec fn stake_ix(version: u8) -> u8 {
    if version == 3 {
        10
    } else {
        11
    }
}

/// The farm instruction a version unstakes and harvests with: 11 for
/// version 3, 12 for 5.
pub open spec fn unstake_ix(version: u8) -> u8 {
    if version == 3 {
        11
    } else {
        12
    }
}

/// Stake `lp_amount` pool tokens in a farm of version 3 or 5; any other
/// version is `UnsupportedVersion`. The loss of the pool token account (4)
/// is measured.
pub fn stake(
    program_id: Pubkey,
    remaining_accounts: &[RemainingAccount],
    input: StakeInputWrapper,
) -> (r: Result<Plan, ErrorCode>)
    requires
        remaining_accounts@.len() >= 5,
        input.version == 3 || input.version == 5 ==> remaining_accounts@.len() >= 10
            && remaining_accounts@.len() != 11,
    ensures
        input.version != 3 && input.version != 5 ==> r == Err::<Plan, ErrorCode>(
            ErrorCode::UnsupportedVersion,
        ),
        input.version == 3 || input.version == 5 ==> (r matches Ok(p) && one_call(
            p,
            program_id,
            stake_accounts(remaining_accounts@),
            seq![stake_ix(input.version)] + le64(input.lp_amount),
            seq![
                OutputSlot::Measured(4usize, Direction::Loss),
                OutputSlot::Zero,
                OutputSlot::Zero,
                OutputSlot::Zero,
            ],
        )),
{
    let ix: u8 = match input.version {
        3 => 10,
        5 => 11,
        _ => {
            return Err(ErrorCode::UnsupportedVersion);
        },
    };
    let instruction = invoke_stake(program_id, remaining_accounts, ix, input.lp_amount);
    let outputs = vec![
        OutputSlot::Measured(4, Direction::Loss),
        OutputSlot::Zero,
        OutputSlot::Zero,
        OutputSlot::Zero,
    ];
    Ok(single_call(instruction, outputs))
}

/// Unstake `share_amount` from a farm of version 3 or 5; any other version is
/// `UnsupportedVersion`. The gain of the pool token account (4) is measured.
pub fn unstake(
    program_id: Pubkey,
    remaining_accounts: &[RemainingAccount],
    input: UnstakeInputWrapper,
) -> (r: Result<Plan, ErrorCode>)
    requires
        remaining_accounts@.len() >= 5,
        input.version == 3 || input.version == 5 ==> remaining_accounts@.len() >= 10
            && remaining_accounts@.len() != 11,
    ensures
        input.version != 3 && input.version != 5 ==> r == Err::<Plan, ErrorCode>(
            ErrorCode::UnsupportedVersion,
        ),
        input.version == 3 || input.version == 5 ==> (r matches Ok(p) && one_call(
            p,
            program_id,
            stake_accounts(remaining_accounts@),
            seq![unstake_ix(input.version)] + le64(input.share_amount),
            seq![
                OutputSlot::Measured(4usize, Direction::Gain),
                OutputSlot::Zero,
                OutputSlot::Zero,
                OutputSlot::Zero,
            ],
        )),
{
    let ix: u8 = match input.version {
        3 => 11,
        5 => 12,
        _ => {
            return Err(ErrorCode::UnsupportedVersion);
        },
    };
    let instruction = invoke_stake(program_id, remaining_accounts, ix, input.share_amount);
    let outputs = vec![
        OutputSlot::Measured(4, Direction::Gain),
        OutputSlot::Zero,
        OutputSlot::Zero,
        OutputSlot::Zero,
    ];
    Ok(single_call(instruction, outputs))
}

/// Harvest a farm of version 3 or 5 by unstaking nothing; any other version
/// is `UnsupportedVersion`. The gain of the reward token account (6) is
/// measured, and for version 5 that of the second reward token account (10).
pub fn harvest(
    program_id: Pubkey,
    remaining_accounts: &[RemainingAccount],
    input: HarvestInputWrapper,
) -> (r: Result<Plan, ErrorCode>)
    requires
        remaining_accounts@.len() >= 7,
        input.version == 3 ==> remaining_accounts@.len() >= 10 && remaining_accounts@.len() != 11,
        input.version == 5 ==> remaining_accounts@.len() >= 12,
    ensures
        input.version != 3 && input.version != 5 ==> r == Err::<Plan, ErrorCode>(
            ErrorCode::UnsupportedVersion,
        ),
        input.version == 3 || input.version == 5 ==> (r matches Ok(p) && one_call(
            p,
            program_id,
            stake_accounts(remaining_accounts@),
            seq![unstake_ix(input.version)] + le64(0),
            seq![
                OutputSlot::Measured(6usize, Direction::Gain),
                if input.version == 5 {
                    OutputSlot::Measured(10usize, Direction::Gain)
                } else {
                    OutputSlot::Zero
                },
                OutputSlot::Zero,
                OutputSlot::Zero,
            ],
        )),
{
    let (ix, reward_b): (u8, OutputSlot) = match input.version {
        3 => (11, OutputSlot::Zero),
        5 => (12, OutputSlot::Measured(10, Direction::Gain)),
        _ => {
            return Err(ErrorCode::UnsupportedVersion);
        },
    };
    let instruction = invoke_stake(program_id, remaining_accounts, ix, 0);
    let outputs = vec![
        OutputSlot::Measured(6, Direction::Gain),
        reward_b,
        OutputSlot::Zero,
        OutputSlot::Zero,
    ];
    Ok(single_call(instruction, outputs))
}


} // verus!
