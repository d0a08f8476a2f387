//! Adapter for Saber pools and farms: what each of its instructions invokes and
//! how its outputs are read.
use vstd::prelude::*;
use vstd::std_specs::convert::FromSpecImpl;
use crate::adapter_common::{
    AccountInfos, AccountMeta, Direction, ErrorCode, InputError, Instruction, Invocation, OutputSlot,
    Plan, RemainingAccount, call_is, encode_output, fixed_metas, le16, le32, load_all_accounts,
    load_remaining_accounts, loaded_meta, loaded_metas, meta, one_call, output_bytes, outputs_are,
    invoke_all, picked_infos, plan_of, push_readonly_tail, push_u16, read_array30_at, read_bool_at,
    read_u16_at, read_u32_at, read_u64_at, read_u8_at, readonly_tail, sighash, sighash_spec,
    single_call, slot_metas,
};
use crate::pack::{bool_byte, le64, push_byte, push_bytes, push_u64};
use crate::pubkey::Pubkey;

verus! {

/// Deposit into a pool.
pub const ADD_LP_IX: u8 = 2;

/// Withdraw both tokens from a pool.
pub const REMOVE_LP_IX: u8 = 3;

/// Withdraw one token from a pool.
pub const REMOVE_LP_ONE_IX: u8 = 4;

/// Input of the instruction, as its bytes hold it.
#[derive(Clone, Copy, Debug, PartialEq, Eq)]
pub struct AddLiquidityInputWrapper {
    pub token_in_amount: u64,
    pub pool_direction: u8,
}

impl AddLiquidityInputWrapper {
    /// Decode the input from its first 9 bytes, each field little-endian; later bytes are ignored.
    pub fn decode(input: &[u8]) -> (r: Result<AddLiquidityInputWrapper, InputError>)
        ensures
            input@.len() < 9 ==> r == Err::<AddLiquidityInputWrapper, InputError>(InputError::TooShort),
            input@.len() >= 9 ==> (r matches Ok(v) && le64(v.token_in_amount) == input@.subrange(0, 8) && v.pool_direction == input@[8]),
    {
        let token_in_amount = read_u64_at(input, 0)?;
        let pool_direction = read_u8_at(input, 8)?;
        Ok(AddLiquidityInputWrapper { token_in_amount, pool_direction })
    }
}

/// Input of the instruction, as its bytes hold it.
#[derive(Clone, Copy, Debug, PartialEq, Eq)]
pub struct RemoveLiquidityInputWrapper {
    pub lp_amount: u64,
    pub action: u8,
}

impl RemoveLiquidityInputWrapper {
    /// Decode the input from its first 9 bytes, each field little-endian; later bytes are ignored.
    pub fn decode(input: &[u8]) -> (r: Result<RemoveLiquidityInputWrapper, InputError>)
        ensures
            input@.len() < 9 ==> r == Err::<RemoveLiquidityInputWrapper, InputError>(InputError::TooShort),
            input@.len() >= 9 ==> (r matches Ok(v) && le64(v.lp_amount) == input@.subrange(0, 8) && v.action == input@[8]),
    {
        let lp_amount = read_u64_at(input, 0)?;
        let action = read_u8_at(input, 8)?;
        Ok(RemoveLiquidityInputWrapper { lp_amount, action })
    }
}

/// Input of the instruction, as its bytes hold it.
#[derive(Clone, Copy, Debug, PartialEq, Eq)]
pub struct StakeInputWrapper {
    pub lp_amount: u64,
}

impl StakeInputWrapper {
    /// Decode the input from its first 8 bytes, each field little-endian; later bytes are ignored.
    pub fn decode(input: &[u8]) -> (r: Result<StakeInputWrapper, InputError>)
        ensures
            input@.len() < 8 ==> r == Err::<StakeInputWrapper, InputError>(InputError::TooShort),
            input@.len() >= 8 ==> (r matches Ok(v) && le64(v.lp_amount) == input@.subrange(0, 8)),
    {
        let lp_amount = read_u64_at(input, 0)?;
        Ok(StakeInputWrapper { lp_amount })
    }
}

/// Input of the instruction, as its bytes hold it.
#[derive(Clone, Copy, Debug, PartialEq, Eq)]
pub struct UnstakeInputWrapper {
    pub share_amount: u64,
}

impl UnstakeInputWrapper {
    /// Decode the input from its first 8 bytes, each field little-endian; later bytes are ignored.
    pub fn decode(input: &[u8]) -> (r: Result<UnstakeInputWrapper, InputError>)
        ensures
            input@.len() < 8 ==> r == Err::<UnstakeInputWrapper, InputError>(InputError::TooShort),
            input@.len() >= 8 ==> (r matches Ok(v) && le64(v.share_amount) == input@.subrange(0, 8)),
    {
        let share_amount = read_u64_at(input, 0)?;
        Ok(UnstakeInputWrapper { share_amount })
    }
}

/// Input of the instruction, as its bytes hold it.
#[derive(Clone, Copy, Debug, PartialEq, Eq)]
pub struct HarvestInputWrapper {
}

impl HarvestInputWrapper {
    /// Decode the input: it has no fields, so any bytes will do.
    pub fn decode(input: &[u8]) -> (r: Result<HarvestInputWrapper, InputError>)
        ensures
            r == Ok::<HarvestInputWrapper, InputError>(HarvestInputWrapper {}),
    {
        Ok(HarvestInputWrapper {})
    }
}

/// Output of the instruction: four amounts.
#[derive(Clone, Copy, Debug, PartialEq, Eq)]
pub struct AddLiquidityOutputWrapper {
    pub lp_amount: u64,
    pub dummy_2: u64,
    pub dummy_3: u64,
    pub dummy_4: u64,
}

impl AddLiquidityOutputWrapper {
    /// The 32 output bytes: the four amounts, in order, little-endian.
    pub fn encode(&self) -> (r: Vec<u8>)
        ensures
            r@ == output_bytes(self.lp_amount, self.dummy_2, self.dummy_3, self.dummy_4),
    {
        encode_output(self.lp_amount, self.dummy_2, self.dummy_3, self.dummy_4)
    }
}

/// Output of the instruction: four amounts.
#[derive(Clone, Copy, Debug, PartialEq, Eq)]
pub struct RemoveLiquidityOutputWrapper {
    pub token_a_amount: u64,
    pub token_b_amount: u64,
    pub dummy_3: u64,
    pub dummy_4: u64,
}

impl RemoveLiquidityOutputWrapper {
    /// The 32 output bytes: the four amounts, in order, little-endian.
    pub fn encode(&self) -> (r: Vec<u8>)
        ensures
            r@ == output_bytes(self.token_a_amount, self.token_b_amount, self.dummy_3, self.dummy_4),
    {
        encode_output(self.token_a_amount, self.token_b_amount, self.dummy_3, self.dummy_4)
    }
}

/// Output of the instruction: four amounts.
#[derive(Clone, Copy, Debug, PartialEq, Eq)]
pub struct StakeOutputWrapper {
    pub dummy_1: u64,
    pub dummy_2: u64,
    pub dummy_3: u64,
    pub dummy_4: u64,
}

impl StakeOutputWrapper {
    /// The 32 output bytes: the four amounts, in order, little-endian.
    pub fn encode(&self) -> (r: Vec<u8>)
        ensures
            r@ == output_bytes(self.dummy_1, self.dummy_2, self.dummy_3, self.dummy_4),
    {
        encode_output(self.dummy_1, self.dummy_2, self.dummy_3, self.dummy_4)
    }
}

/// Output of the instruction: four amounts.
#[derive(Clone, Copy, Debug, PartialEq, Eq)]
pub struct UnstakeOutputWrapper {
    pub lp_amount: u64,
    pub dummy_2: u64,
    pub dummy_3: u64,
    pub dummy_4: u64,
}

impl UnstakeOutputWrapper {
    /// The 32 output bytes: the four amounts, in order, little-endian.
    pub fn encode(&self) -> (r: Vec<u8>)
        ensures
            r@ == output_bytes(self.lp_amount, self.dummy_2, self.dummy_3, self.dummy_4),
    {
        encode_output(self.lp_amount, self.dummy_2, self.dummy_3, self.dummy_4)
    }
}

/// Output of the instruction: four amounts.
#[derive(Clone, Copy, Debug, PartialEq, Eq)]
pub struct HarvestOutputWrapper {
    pub dummy_1: u64,
    pub dummy_2: u64,
    pub dummy_3: u64,
    pub dummy_4: u64,
}

impl HarvestOutputWrapper {
    /// The 32 output bytes: the four amounts, in order, little-endian.
    pub fn encode(&self) -> (r: Vec<u8>)
        ensures
            r@ == output_bytes(self.dummy_1, self.dummy_2, self.dummy_3, self.dummy_4),
    {
        encode_output(self.dummy_1, self.dummy_2, self.dummy_3, self.dummy_4)
    }
}

/// The four output amounts as a tuple, to be read by position.
pub type AddLiquidityOutputTuple = (u64, u64, u64, u64);

/// The four output amounts as a tuple, to be read by position.
pub type RemoveLiquidityOutputTuple = (u64, u64, u64, u64);

/// The four output amounts as a tuple, to be read by position.
pub type StakeOutputTuple = (u64, u64, u64, u64);

/// The four output amounts as a tuple, to be read by position.
pub type UnstakeOutputTuple = (u64, u64, u64, u64);

/// The four output amounts as a tuple, to be read by position.
pub type HarvestOutputTuple = (u64, u64, u64, u64);

impl From<AddLiquidityOutputWrapper> for AddLiquidityOutputTuple {
    fn from(result: AddLiquidityOutputWrapper) -> Self {
        (result.lp_amount, result.dummy_2, result.dummy_3, result.dummy_4)
    }
}

impl FromSpecImpl<AddLiquidityOutputWrapper> for AddLiquidityOutputTuple {
    open spec fn obeys_from_spec() -> bool {
        true
    }

    open spec fn from_spec(v: AddLiquidityOutputWrapper) -> Self {
        (v.lp_amount, v.dummy_2, v.dummy_3, v.dummy_4)
    }
}

impl From<RemoveLiquidityOutputWrapper> for RemoveLiquidityOutputTuple {
    fn from(result: RemoveLiquidityOutputWrapper) -> Self {
        (result.token_a_amount, result.token_b_amount, result.dummy_3, result.dummy_4)
    }
}

impl FromSpecImpl<RemoveLiquidityOutputWrapper> for RemoveLiquidityOutputTuple {
    open spec fn obeys_from_spec() -> bool {
        true
    }

    open spec fn from_spec(v: RemoveLiquidityOutputWrapper) -> Self {
        (v.token_a_amount, v.token_b_amount, v.dummy_3, v.dummy_4)
    }
}

impl From<StakeOutputWrapper> for StakeOutputTuple {
    fn from(result: StakeOutputWrapper) -> Self {
        (result.dummy_1, result.dummy_2, result.dummy_3, result.dummy_4)
    }
}

impl FromSpecImpl<StakeOutputWrapper> for StakeOutputTuple {
    open spec fn obeys_from_spec() -> bool {
        true
    }

    open spec fn from_spec(v: StakeOutputWrapper) -> Self {
        (v.dummy_1, v.dummy_2, v.dummy_3, v.dummy_4)
    }
}

impl From<UnstakeOutputWrapper> for UnstakeOutputTuple {
    fn from(result: UnstakeOutputWrapper) -> Self {
        (result.lp_amount, result.dummy_2, result.dummy_3, result.dummy_4)
    }
}

impl FromSpecImpl<UnstakeOutputWrapper> for UnstakeOutputTuple {
    open spec fn obeys_from_spec() -> bool {
        true
    }

    open spec fn from_spec(v: UnstakeOutputWrapper) -> Self {
        (v.lp_amount, v.dummy_2, v.dummy_3, v.dummy_4)
    }
}

impl From<HarvestOutputWrapper> for HarvestOutputTuple {
    fn from(result: HarvestOutputWrapper) -> Self {
        (result.dummy_1, result.dummy_2, result.dummy_3, result.dummy_4)
    }
}

impl FromSpecImpl<HarvestOutputWrapper> for HarvestOutputTuple {
    open spec fn obeys_from_spec() -> bool {
        true
    }

    open spec fn from_spec(v: HarvestOutputWrapper) -> Self {
        (v.dummy_1, v.dummy_2, v.dummy_3, v.dummy_4)
    }
}

/// The account slots of `stake`.
pub open spec fn stake_slots() -> Seq<(usize, bool, bool)> {
    seq![
        (0usize, true, true),
        (1usize, false, true),
        (2usize, false, true),
        (3usize, false, true),
        (4usize, false, true),
        (5usize, false, false),
        (6usize, false, false),
    ]
}

/// Stake `lp_amount` pool tokens: the `stake_tokens` instruction with the
/// amount. The outputs are the fixed amounts 1000 and 2000.
pub fn stake(
    program_id: Pubkey,
    remaining_accounts: &[RemainingAccount],
    input: StakeInputWrapper,
) -> (r: Plan)
    requires
        remaining_accounts@.len() >= 7,
    ensures
        one_call(
            r,
            program_id,
            slot_metas(remaining_accounts@, stake_slots()),
            sighash_spec("global"@, "stake_tokens"@) + le64(input.lp_amount),
            seq![
                OutputSlot::Amount(1000u64),
                OutputSlot::Amount(2000u64),
                OutputSlot::Zero,
                OutputSlot::Zero,
            ],
        ),
{
    let slots: [(usize, bool, bool); 7] = [
            (0, true, true),
            (1, false, true),
            (2, false, true),
            (3, false, true),
            (4, false, true),
            (5, false, false),
            (6, false, false),
        ];
    assert(slots@ =~= stake_slots());
    let accounts = fixed_metas(remaining_accounts, &slots);
    let mut data: Vec<u8> = Vec::new();
    let selector = sighash("global", "stake_tokens");
    push_bytes(&mut data, selector.as_slice());
    assert(data@ =~= sighash_spec("global"@, "stake_tokens"@));
    push_u64(&mut data, input.lp_amount);
    let mut outputs: Vec<OutputSlot> = Vec::new();
    outputs.push(OutputSlot::Amount(1000u64));
    outputs.push(OutputSlot::Amount(2000u64));
    outputs.push(OutputSlot::Zero);
    outputs.push(OutputSlot::Zero);
    assert(outputs@ =~= seq![
        OutputSlot::Amount(1000u64),
        OutputSlot::Amount(2000u64),
        OutputSlot::Zero,
        OutputSlot::Zero,
    ]);
    single_call(Instruction { program_id, accounts, data }, outputs)
}

/// The account slots of `unstake`.
pub open spec fn unstake_slots() -> Seq<(usize, bool, bool)> {
    seq![
        (0usize, true, true),
        (1usize, false, true),
        (2usize, false, true),
        (3usize, false, true),
        (4usize, false, true),
        (5usize, false, false),
        (6usize, false, false),
    ]
}

/// Unstake `share_amount` pool tokens: the `withdraw_tokens` instruction
/// with the amount. The outputs are the amount itself and the fixed 2000.
pub fn unstake(
    program_id: Pubkey,
    remaining_accounts: &[RemainingAccount],
    input: UnstakeInputWrapper,
) -> (r: Plan)
    requires
        remaining_accounts@.len() >= 7,
    ensures
        one_call(
            r,
            program_id,
            slot_metas(remaining_accounts@, unstake_slots()),
            sighash_spec("global"@, "withdraw_tokens"@) + le64(input.share_amount),
            seq![
                OutputSlot::Amount(input.share_amount),
                OutputSlot::Amount(2000u64),
                OutputSlot::Zero,
                OutputSlot::Zero,
            ],
        ),
{
    let slots: [(usize, bool, bool); 7] = [
            (0, true, true),
            (1, false, true),
            (2, false, true),
            (3, false, true),
            (4, false, true),
            (5, false, false),
            (6, false, false),
        ];
    assert(slots@ =~= unstake_slots());
    let accounts = fixed_metas(remaining_accounts, &slots);
    let mut data: Vec<u8> = Vec::new();
    let selector = sighash("global", "withdraw_tokens");
    push_bytes(&mut data, selector.as_slice());
    assert(data@ =~= sighash_spec("global"@, "withdraw_tokens"@));
    push_u64(&mut data, input.share_amount);
    let mut outputs: Vec<OutputSlot> = Vec::new();
    outputs.push(OutputSlot::Amount(input.share_amount));
    outputs.push(OutputSlot::Amount(2000u64));
    outputs.push(OutputSlot::Zero);
    outputs.push(OutputSlot::Zero);
    assert(outputs@ =~= seq![
        OutputSlot::Amount(input.share_amount),
        OutputSlot::Amount(2000u64),
        OutputSlot::Zero,
        OutputSlot::Zero,
    ]);
    single_call(Instruction { program_id, accounts, data }, outputs)
}

/// The account slots of `harvest`.
pub open spec fn harvest_slots() -> Seq<(usize, bool, bool)> {
    seq![
        (0usize, false, true),
        (1usize, false, false),
        (2usize, false, true),
        (3usize, false, true),
        (4usize, false, true),
        (5usize, false, true),
        (6usize, true, true),
        (7usize, false, true),
        (8usize, false, true),
        (9usize, false, true),
        (10usize, false, true),
        (11usize, false, false),
        (12usize, false, false),
    ]
}

/// Claim rewards: the `claim_rewards` instruction. Nothing is measured.
pub fn harvest(
    program_id: Pubkey,
    remaining_accounts: &[RemainingAccount],
    _input: HarvestInputWrapper,
) -> (r: Plan)
    requires
        remaining_accounts@.len() >= 13,
    ensures
        one_call(
            r,
            program_id,
            slot_metas(remaining_accounts@, harvest_slots()),
            sighash_spec("global"@, "claim_rewards"@),
            seq![
                OutputSlot::Zero,
                OutputSlot::Zero,
                OutputSlot::Zero,
                OutputSlot::Zero,
            ],
        ),
{
    let slots: [(usize, bool, bool); 13] = [
            (0, false, true),
            (1, false, false),
            (2, false, true),
            (3, false, true),
            (4, false, true),
            (5, false, true),
            (6, true, true),
            (7, false, true),
            (8, false, true),
            (9, false, true),
            (10, false, true),
            (11, false, false),
            (12, false, false),
        ];
    assert(slots@ =~= harvest_slots());
    let accounts = fixed_metas(remaining_accounts, &slots);
    let mut data: Vec<u8> = Vec::new();
    let selector = sighash("global", "claim_rewards");
    push_bytes(&mut data, selector.as_slice());
    assert(data@ =~= sighash_spec("global"@, "claim_rewards"@));
    let mut outputs: Vec<OutputSlot> = Vec::new();
    outputs.push(OutputSlot::Zero);
    outputs.push(OutputSlot::Zero);
    outputs.push(OutputSlot::Zero);
    outputs.push(OutputSlot::Zero);
    assert(outputs@ =~= seq![
        OutputSlot::Zero,
        OutputSlot::Zero,
        OutputSlot::Zero,
        OutputSlot::Zero,
    ]);
    single_call(Instruction { program_id, accounts, data }, outputs)
}

/// Which token a single-token deposit is of.
#[derive(Clone, Copy, Debug, PartialEq, Eq)]
pub enum PoolDirection {
    /// Token B
    Obverse,
    /// Token A
    Reverse,
}

/// The account slots of `add_liquidity`.
pub open spec fn add_liquidity_slots() -> Seq<(usize, bool, bool)> {
    seq![
        (0usize, false, false),
        (1usize, false, false),
        (2usize, true, true),
        (3usize, false, true),
        (4usize, false, true),
        (5usize, false, true),
        (6usize, false, true),
        (7usize, false, true),
        (8usize, false, true),
        (9usize, false, false),
        (10usize, false, false),
    ]
}

/// Add `token_in_amount` of one token to the pool: instruction 2 with the A
/// amount, the B amount and no minimum; direction 0 deposits it as token B,
/// 1 as token A, any other is `UnsupportedPoolDirection`. The gain of the
/// pool token account (8) is measured, and the second output is the fixed
/// amount 1000.
pub fn add_liquidity(
    program_id: Pubkey,
    remaining_accounts: &[RemainingAccount],
    input: AddLiquidityInputWrapper,
) -> (r: Result<Plan, ErrorCode>)
    requires
        remaining_accounts@.len() >= 9,
        input.pool_direction <= 1 ==> remaining_accounts@.len() >= 11,
    ensures
        input.pool_direction > 1 ==> r == Err::<Plan, ErrorCode>(ErrorCode::UnsupportedPoolDirection),
        input.pool_direction <= 1 ==> (r matches Ok(p) && one_call(
            p,
            program_id,
            slot_metas(remaining_accounts@, add_liquidity_slots()),
            seq![ADD_LP_IX] + (if input.pool_direction == 0 {
                le64(0) + le64(input.token_in_amount)
            } else {
                le64(input.token_in_amount) + le64(0)
            }) + le64(0),
            seq![
                OutputSlot::Measured(8usize, Direction::Gain),
                OutputSlot::Amount(1000),
                OutputSlot::Zero,
                OutputSlot::Zero,
            ],
        )),
{
    let (a_amount, b_amount): (u64, u64) = match input.pool_direction {
        0 => (0, input.token_in_amount),
        1 => (input.token_in_amount, 0),
        _ => {
            return Err(ErrorCode::UnsupportedPoolDirection);
        },
    };
    let slots: [(usize, bool, bool); 11] = [
        (0, false, false),
        (1, false, false),
        (2, true, true),
        (3, false, true),
        (4, false, true),
        (5, false, true),
        (6, false, true),
        (7, false, true),
        (8, false, true),
        (9, false, false),
        (10, false, false),
    ];
    assert(slots@ =~= add_liquidity_slots());
    let accounts = fixed_metas(remaining_accounts, &slots);
    let mut data: Vec<u8> = Vec::new();
    push_byte(&mut data, ADD_LP_IX);
    assert(data@ =~= seq![ADD_LP_IX]);
    push_u64(&mut data, a_amount);
    push_u64(&mut data, b_amount);
    push_u64(&mut data, 0);
    proof {
        if input.pool_direction == 0 {
            assert(data@ =~= seq![ADD_LP_IX] + (le64(0) + le64(input.token_in_amount)) + le64(0));
        } else {
            assert(data@ =~= seq![ADD_LP_IX] + (le64(input.token_in_amount) + le64(0)) + le64(0));
        }
    }
    let outputs = vec![
        OutputSlot::Measured(8, Direction::Gain),
        OutputSlot::Amount(1000),
        OutputSlot::Zero,
        OutputSlot::Zero,
    ];
    Ok(single_call(Instruction { program_id, accounts, data }, outputs))
}

/// The account slots of a withdrawal of both tokens.
pub open spec fn remove_both_slots() -> Seq<(usize, bool, bool)> {
    seq![
        (0usize, false, false),
        (1usize, false, false),
        (2usize, true, false),
        (3usize, false, true),
        (4usize, false, true),
        (5usize, false, true),
        (6usize, false, true),
        (7usize, false, true),
        (8usize, false, true),
        (9usize, false, true),
        (10usize, false, true),
        (11usize, false, false),
    ]
}

/// The account slots of a withdrawal of one token.
pub open spec fn remove_one_slots() -> Seq<(usize, bool, bool)> {
    seq![
        (0usize, false, false),
        (1usize, false, false),
        (2usize, true, true),
        (3usize, false, true),
        (4usize, false, true),
        (5usize, false, true),
        (6usize, false, true),
        (7usize, false, true),
        (8usize, false, true),
        (9usize, false, false),
    ]
}

/// Remove `lp_amount` pool tokens. Action 2 withdraws both tokens
/// (instruction 3 with the amount and two zero minimums) and measures the
/// gains of the token accounts 7 and 8; action 3 withdraws one token
/// (instruction 4 with the amount and a zero minimum) and measures the gain
/// of the token account 7. Any other action is `UnsupportedAction`.
pub fn remove_liquidity(
    program_id: Pubkey,
    remaining_accounts: &[RemainingAccount],
    input: RemoveLiquidityInputWrapper,
) -> (r: Result<Plan, ErrorCode>)
    requires
        input.action == 2 ==> remaining_accounts@.len() >= 12,
        input.action == 3 ==> remaining_accounts@.len() >= 10,
    ensures
        input.action == 2 ==> (r matches Ok(p) && one_call(
            p,
            program_id,
            slot_metas(remaining_accounts@, remove_both_slots()),
            seq![REMOVE_LP_IX] + le64(input.lp_amount) + le64(0) + le64(0),
            seq![
                OutputSlot::Measured(7usize, Direction::Gain),
                OutputSlot::Measured(8usize, Direction::Gain),
                OutputSlot::Zero,
                OutputSlot::Zero,
            ],
        )),
        input.action == 3 ==> (r matches Ok(p) && one_call(
            p,
            program_id,
            slot_metas(remaining_accounts@, remove_one_slots()),
            seq![REMOVE_LP_ONE_IX] + le64(input.lp_amount) + le64(0),
            seq![
                OutputSlot::Measured(7usize, Direction::Gain),
                OutputSlot::Zero,
                OutputSlot::Zero,
                OutputSlot::Zero,
            ],
        )),
        input.action != 2 && input.action != 3 ==> r == Err::<Plan, ErrorCode>(
            ErrorCode::UnsupportedAction,
        ),
{
    let mut data: Vec<u8> = Vec::new();
    if input.action == 2 {
        let slots: [(usize, bool, bool); 12] = [
            (0, false, false),
            (1, false, false),
            (2, true, false),
            (3, false, true),
            (4, false, true),
            (5, false, true),
            (6, false, true),
            (7, false, true),
            (8, false, true),
            (9, false, true),
            (10, false, true),
            (11, false, false),
        ];
        assert(slots@ =~= remove_both_slots());
        let accounts = fixed_metas(remaining_accounts, &slots);
        push_byte(&mut data, REMOVE_LP_IX);
        assert(data@ =~= seq![REMOVE_LP_IX]);
        push_u64(&mut data, input.lp_amount);
        push_u64(&mut data, 0);
        push_u64(&mut data, 0);
        let outputs = vec![
            OutputSlot::Measured(7, Direction::Gain),
            OutputSlot::Measured(8, Direction::Gain),
            OutputSlot::Zero,
            OutputSlot::Zero,
        ];
        Ok(single_call(Instruction { program_id, accounts, data }, outputs))
    } else if input.action == 3 {
        let slots: [(usize, bool, bool); 10] = [
            (0, false, false),
            (1, false, false),
            (2, true, true),
            (3, false, true),
            (4, false, true),
            (5, false, true),
            (6, false, true),
            (7, false, true),
            (8, false, true),
            (9, false, false),
        ];
        assert(slots@ =~= remove_one_slots());
        let accounts = fixed_metas(remaining_accounts, &slots);
        push_byte(&mut data, REMOVE_LP_ONE_IX);
        assert(data@ =~= seq![REMOVE_LP_ONE_IX]);
        push_u64(&mut data, input.lp_amount);
        push_u64(&mut data, 0);
        let outputs = vec![
            OutputSlot::Measured(7, Direction::Gain),
            OutputSlot::Zero,
            OutputSlot::Zero,
            OutputSlot::Zero,
        ];
        Ok(single_call(Instruction { program_id, accounts, data }, outputs))
    } else {
        Err(ErrorCode::UnsupportedAction)
    }
}


} // verus!
