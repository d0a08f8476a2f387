//! Adapter for Orca pools and farms: what each of its instructions invokes and
//! how its outputs are read.
use vstd::prelude::*;
use vstd::std_specs::convert::FromSpecImpl;
use crate::adapter_common::{
    AccountInfos, AccountMeta, Direction, ErrorCode, InputError, Instruction, Invocation, OutputSlot,
    Plan, RemainingAccount, call_is, encode_output, fixed_metas, le16, le32, load_all_accounts,
    load_remaining_accounts, loaded_meta, loaded_metas, meta, one_call, output_bytes, outputs_are,
    invoke_all, picked_infos, plan_of, push_readonly_tail, push_u16, read_array30_at, read_bool_at,
    read_u16_at, read_u32_at, read_u64_at, read_u8_at, readonly_tail, sighash, sighash_spec,
    single_call, slot_metas,
};
use crate::pack::{bool_byte, le64, push_byte, push_bytes, push_u64};
use crate::pubkey::Pubkey;

verus! {

/// Deposit one token into a pool.
pub const ADD_LP_IX: u8 = 4;

/// Withdraw both tokens from a pool.
pub const REMOVE_LP_IX: u8 = 3;

/// Withdraw one token from a pool.
pub const REMOVE_LP_SINGLE_IX: u8 = 5;

/// Convert pool tokens to farm tokens.
pub const STAKE_IX: u8 = 2;

/// Convert farm tokens back to pool tokens.
pub const UNSTAKE_IX: u8 = 3;

/// Harvest farm rewards.
pub const HARVEST_IX: u8 = 4;

/// Input of the instruction, as its bytes hold it.
#[derive(Clone, Copy, Debug, PartialEq, Eq)]
pub struct AddLiquidityInputWrapper {
    pub token_in_amount: u64,
}

impl AddLiquidityInputWrapper {
    /// Decode the input from its first 8 bytes, each field little-endian; later bytes are ignored.
    pub fn decode(input: &[u8]) -> (r: Result<AddLiquidityInputWrapper, InputError>)
        ensures
            input@.len() < 8 ==> r == Err::<AddLiquidityInputWrapper, InputError>(InputError::TooShort),
            input@.len() >= 8 ==> (r matches Ok(v) && le64(v.token_in_amount) == input@.subrange(0, 8)),
    {
        let token_in_amount = read_u64_at(input, 0)?;
        Ok(AddLiquidityInputWrapper { token_in_amount })
    }
}

/// Input of the instruction, as its bytes hold it.
#[derive(Clone, Copy, Debug, PartialEq, Eq)]
pub struct RemoveLiquidityInputWrapper {
    pub lp_amount: u64,
    pub action: u8,
}

impl RemoveLiquidityInputWrapper {
    /// Decode the input from its first 9 bytes, each field little-endian; later bytes are ignored.
    pub fn decode(input: &[u8]) -> (r: Result<RemoveLiquidityInputWrapper, InputError>)
        ensures
            input@.len() < 9 ==> r == Err::<RemoveLiquidityInputWrapper, InputError>(InputError::TooShort),
            input@.len() >= 9 ==> (r matches Ok(v) && le64(v.lp_amount) == input@.subrange(0, 8) && v.action == input@[8]),
    {
        let lp_amount = read_u64_at(input, 0)?;
        let action = read_u8_at(input, 8)?;
        Ok(RemoveLiquidityInputWrapper { lp_amount, action })
    }
}

/// Input of the instruction, as its bytes hold it.
#[derive(Clone, Copy, Debug, PartialEq, Eq)]
pub struct StakeInputWrapper {
    pub lp_amount: u64,
}

impl StakeInputWrapper {
    /// Decode the input from its first 8 bytes, each field little-endian; later bytes are ignored.
    pub fn decode(input: &[u8]) -> (r: Result<StakeInputWrapper, InputError>)
        ensures
            input@.len() < 8 ==> r == Err::<StakeInputWrapper, InputError>(InputError::TooShort),
            input@.len() >= 8 ==> (r matches Ok(v) && le64(v.lp_amount) == input@.subrange(0, 8)),
    {
        let lp_amount = read_u64_at(input, 0)?;
        Ok(StakeInputWrapper { lp_amount })
    }
}

/// Input of the instruction, as its bytes hold it.
#[derive(Clone, Copy, Debug, PartialEq, Eq)]
pub struct UnstakeInputWrapper {
    pub share_amount: u64,
}

impl UnstakeInputWrapper {
    /// Decode the input from its first 8 bytes, each field little-endian; later bytes are ignored.
    pub fn decode(input: &[u8]) -> (r: Result<UnstakeInputWrapper, InputError>)
        ensures
            input@.len() < 8 ==> r == Err::<UnstakeInputWrapper, InputError>(InputError::TooShort),
            input@.len() >= 8 ==> (r matches Ok(v) && le64(v.share_amount) == input@.subrange(0, 8)),
    {
        let share_amount = read_u64_at(input, 0)?;
        Ok(UnstakeInputWrapper { share_amount })
    }
}

/// Input of the instruction, as its bytes hold it.
#[derive(Clone, Copy, Debug, PartialEq, Eq)]
pub struct HarvestInputWrapper {
}

impl HarvestInputWrapper {
    /// Decode the input: it has no fields, so any bytes will do.
    pub fn decode(input: &[u8]) -> (r: Result<HarvestInputWrapper, InputError>)
        ensures
            r == Ok::<HarvestInputWrapper, InputError>(HarvestInputWrapper {}),
    {
        Ok(HarvestInputWrapper {})
    }
}

/// Output of the instruction: four amounts.
#[derive(Clone, Copy, Debug, PartialEq, Eq)]
pub struct AddLiquidityOutputWrapper {
    pub lp_amount: u64,
    pub dummy_2: u64,
    pub dummy_3: u64,
    pub dummy_4: u64,
}

impl AddLiquidityOutputWrapper {
    /// The 32 output bytes: the four amounts, in order, little-endian.
    pub fn encode(&self) -> (r: Vec<u8>)
        ensures
            r@ == output_bytes(self.lp_amount, self.dummy_2, self.dummy_3, self.dummy_4),
    {
        encode_output(self.lp_amount, self.dummy_2, self.dummy_3, self.dummy_4)
    }
}

/// Output of the instruction: four amounts.
#[derive(Clone, Copy, Debug, PartialEq, Eq)]
pub struct RemoveLiquidityOutputWrapper {
    pub token_a_out_amount: u64,
    pub token_b_out_amount: u64,
    pub lp_amount: u64,
    pub dummy_4: u64,
}

impl RemoveLiquidityOutputWrapper {
    /// The 32 output bytes: the four amounts, in order, little-endian.
    pub fn encode(&self) -> (r: Vec<u8>)
        ensures
            r@ == output_bytes(self.token_a_out_amount, self.token_b_out_amount, self.lp_amount, self.dummy_4),
    {
        encode_output(self.token_a_out_amount, self.token_b_out_amount, self.lp_amount, self.dummy_4)
    }
}

/// Output of the instruction: four amounts.
#[derive(Clone, Copy, Debug, PartialEq, Eq)]
pub struct StakeOutputWrapper {
    pub share_amount: u64,
    pub lp_amount: u64,
    pub dummy_3: u64,
    pub dummy_4: u64,
}

impl StakeOutputWrapper {
    /// The 32 output bytes: the four amounts, in order, little-endian.
    pub fn encode(&self) -> (r: Vec<u8>)
        ensures
            r@ == output_bytes(self.share_amount, self.lp_amount, self.dummy_3, self.dummy_4),
    {
        encode_output(self.share_amount, self.lp_amount, self.dummy_3, self.dummy_4)
    }
}

/// Output of the instruction: four amounts.
#[derive(Clone, Copy, Debug, PartialEq, Eq)]
pub struct UnstakeOutputWrapper {
    pub lp_amount: u64,
    pub share_amount: u64,
    pub dummy_3: u64,
    pub dummy_4: u64,
}

impl UnstakeOutputWrapper {
    /// The 32 output bytes: the four amounts, in order, little-endian.
    pub fn encode(&self) -> (r: Vec<u8>)
        ensures
            r@ == output_bytes(self.lp_amount, self.share_amount, self.dummy_3, self.dummy_4),
    {
        encode_output(self.lp_amount, self.share_amount, self.dummy_3, self.dummy_4)
    }
}

/// Output of the instruction: four amounts.
#[derive(Clone, Copy, Debug, PartialEq, Eq)]
pub struct HarvestOutputWrapper {
    pub reward_amount: u64,
    pub dummy_2: u64,
    pub dummy_3: u64,
    pub dummy_4: u64,
}

impl HarvestOutputWrapper {
    /// The 32 output bytes: the four amounts, in order, little-endian.
    pub fn encode(&self) -> (r: Vec<u8>)
        ensures
            r@ == output_bytes(self.reward_amount, self.dummy_2, self.dummy_3, self.dummy_4),
    {
        encode_output(self.reward_amount, self.dummy_2, self.dummy_3, self.dummy_4)
    }
}

/// The four output amounts as a tuple, to be read by position.
pub type AddLiquidityOutputTuple = (u64, u64, u64, u64);

/// The four output amounts as a tuple, to be read by position.
pub type RemoveLiquidityOutputTuple = (u64, u64, u64, u64);

/// The four output amounts as a tuple, to be read by position.
pub type StakeOutputTuple = (u64, u64, u64, u64);

/// The four output amounts as a tuple, to be read by position.
pub type UnstakeOutputTuple = (u64, u64, u64, u64);

/// The four output amounts as a tuple, to be read by position.
pub type HarvestOutputTuple = (u64, u64, u64, u64);

impl From<AddLiquidityOutputWrapper> for AddLiquidityOutputTuple {
    fn from(result: AddLiquidityOutputWrapper) -> Self {
        (result.lp_amount, result.dummy_2, result.dummy_3, result.dummy_4)
    }
}

impl FromSpecImpl<AddLiquidityOutputWrapper> for AddLiquidityOutputTuple {
    open spec fn obeys_from_spec() -> bool {
        true
    }

    open spec fn from_spec(v: AddLiquidityOutputWrapper) -> Self {
        (v.lp_amount, v.dummy_2, v.dummy_3, v.dummy_4)
    }
}

impl From<RemoveLiquidityOutputWrapper> for RemoveLiquidityOutputTuple {
    fn from(result: RemoveLiquidityOutputWrapper) -> Self {
        (result.token_a_out_amount, result.token_b_out_amount, result.lp_amount, result.dummy_4)
    }
}

impl FromSpecImpl<RemoveLiquidityOutputWrapper> for RemoveLiquidityOutputTuple {
    open spec fn obeys_from_spec() -> bool {
        true
    }

    open spec fn from_spec(v: RemoveLiquidityOutputWrapper) -> Self {
        (v.token_a_out_amount, v.token_b_out_amount, v.lp_amount, v.dummy_4)
    }
}

impl From<StakeOutputWrapper> for StakeOutputTuple {
    fn from(result: StakeOutputWrapper) -> Self {
        (result.share_amount, result.lp_amount, result.dummy_3, result.dummy_4)
    }
}

impl FromSpecImpl<StakeOutputWrapper> for StakeOutputTuple {
    open spec fn obeys_from_spec() -> bool {
        true
    }

    open spec fn from_spec(v: StakeOutputWrapper) -> Self {
        (v.share_amount, v.lp_amount, v.dummy_3, v.dummy_4)
    }
}

impl From<UnstakeOutputWrapper> for UnstakeOutputTuple {
    fn from(result: UnstakeOutputWrapper) -> Self {
        (result.lp_amount, result.share_amount, result.dummy_3, result.dummy_4)
    }
}

impl FromSpecImpl<UnstakeOutputWrapper> for UnstakeOutputTuple {
    open spec fn obeys_from_spec() -> bool {
        true
    }

    open spec fn from_spec(v: UnstakeOutputWrapper) -> Self {
        (v.lp_amount, v.share_amount, v.dummy_3, v.dummy_4)
    }
}

impl From<HarvestOutputWrapper> for HarvestOutputTuple {
    fn from(result: HarvestOutputWrapper) -> Self {
        (result.reward_amount, result.dummy_2, result.dummy_3, result.dummy_4)
    }
}

impl FromSpecImpl<HarvestOutputWrapper> for HarvestOutputTuple {
    open spec fn obeys_from_spec() -> bool {
        true
    }

    open spec fn from_spec(v: HarvestOutputWrapper) -> Self {
        (v.reward_amount, v.dummy_2, v.dummy_3, v.dummy_4)
    }
}

/// The positions of the accounts of `add_liquidity`.
pub open spec fn add_liquidity_indices() -> Seq<usize> {
    seq![0usize, 1usize, 2usize, 3usize, 4usize, 5usize, 6usize, 7usize, 8usize]
}

/// Add `token_in_amount` of one token to the pool: instruction 4 with the
/// amount and no minimum, on the first nine accounts as they are flagged.
/// The pool token account (7) is measured.
pub fn add_liquidity(
    program_id: Pubkey,
    remaining_accounts: &[RemainingAccount],
    input: AddLiquidityInputWrapper,
) -> (r: Plan)
    requires
        remaining_accounts@.len() >= 9,
    ensures
        one_call(
            r,
            program_id,
            loaded_metas(remaining_accounts@, add_liquidity_indices()),
            seq![ADD_LP_IX] + le64(input.token_in_amount) + le64(0u64),
            seq![
                OutputSlot::Measured(7usize, Direction::Change),
                OutputSlot::Zero,
                OutputSlot::Zero,
                OutputSlot::Zero,
            ],
        ),
{
    let index_array: [usize; 9] = [0, 1, 2, 3, 4, 5, 6, 7, 8];
    assert(index_array@ =~= add_liquidity_indices());
    let accounts = load_remaining_accounts(remaining_accounts, &index_array);
    let mut data: Vec<u8> = Vec::new();
    push_byte(&mut data, ADD_LP_IX);
    assert(data@ =~= seq![ADD_LP_IX]);
    push_u64(&mut data, input.token_in_amount);
    push_u64(&mut data, 0u64);
    let mut outputs: Vec<OutputSlot> = Vec::new();
    outputs.push(OutputSlot::Measured(7, Direction::Change));
    outputs.push(OutputSlot::Zero);
    outputs.push(OutputSlot::Zero);
    outputs.push(OutputSlot::Zero);
    assert(outputs@ =~= seq![
        OutputSlot::Measured(7usize, Direction::Change),
        OutputSlot::Zero,
        OutputSlot::Zero,
        OutputSlot::Zero,
    ]);
    single_call(Instruction { program_id, accounts, data }, outputs)
}

/// The positions of the accounts of `stake`.
pub open spec fn stake_indices() -> Seq<usize> {
    seq![0usize, 1usize, 2usize, 3usize, 4usize, 5usize, 6usize, 7usize, 8usize, 9usize, 10usize, 11usize]
}

/// Stake `lp_amount` pool tokens in the farm: instruction 2 with the
/// amount. The share (5) and pool token (1) accounts are measured.
pub fn stake(
    program_id: Pubkey,
    remaining_accounts: &[RemainingAccount],
    input: StakeInputWrapper,
) -> (r: Plan)
    requires
        remaining_accounts@.len() >= 12,
    ensures
        one_call(
            r,
            program_id,
            loaded_metas(remaining_accounts@, stake_indices()),
            seq![STAKE_IX] + le64(input.lp_amount),
            seq![
                OutputSlot::Measured(5usize, Direction::Change),
                OutputSlot::Measured(1usize, Direction::Change),
                OutputSlot::Zero,
                OutputSlot::Zero,
            ],
        ),
{
    let index_array: [usize; 12] = [0, 1, 2, 3, 4, 5, 6, 7, 8, 9, 10, 11];
    assert(index_array@ =~= stake_indices());
    let accounts = load_remaining_accounts(remaining_accounts, &index_array);
    let mut data: Vec<u8> = Vec::new();
    push_byte(&mut data, STAKE_IX);
    assert(data@ =~= seq![STAKE_IX]);
    push_u64(&mut data, input.lp_amount);
    let mut outputs: Vec<OutputSlot> = Vec::new();
    outputs.push(OutputSlot::Measured(5, Direction::Change));
    outputs.push(OutputSlot::Measured(1, Direction::Change));
    outputs.push(OutputSlot::Zero);
    outputs.push(OutputSlot::Zero);
    assert(outputs@ =~= seq![
        OutputSlot::Measured(5usize, Direction::Change),
        OutputSlot::Measured(1usize, Direction::Change),
        OutputSlot::Zero,
        OutputSlot::Zero,
    ]);
    single_call(Instruction { program_id, accounts, data }, outputs)
}

/// The positions of the accounts of `unstake`.
pub open spec fn unstake_indices() -> Seq<usize> {
    seq![0usize, 1usize, 2usize, 3usize, 4usize, 5usize, 6usize, 7usize, 8usize, 9usize, 10usize, 11usize]
}

/// Unstake `share_amount` farm shares: instruction 3 with the amount. The
/// share (4) and pool token (1) accounts are measured.
pub fn unstake(
    program_id: Pubkey,
    remaining_accounts: &[RemainingAccount],
    input: UnstakeInputWrapper,
) -> (r: Plan)
    requires
        remaining_accounts@.len() >= 12,
    ensures
        one_call(
            r,
            program_id,
            loaded_metas(remaining_accounts@, unstake_indices()),
            seq![UNSTAKE_IX] + le64(input.share_amount),
            seq![
                OutputSlot::Measured(1usize, Direction::Change),
                OutputSlot::Measured(4usize, Direction::Change),
                OutputSlot::Zero,
                OutputSlot::Zero,
            ],
        ),
{
    let index_array: [usize; 12] = [0, 1, 2, 3, 4, 5, 6, 7, 8, 9, 10, 11];
    assert(index_array@ =~= unstake_indices());
    let accounts = load_remaining_accounts(remaining_accounts, &index_array);
    let mut data: Vec<u8> = Vec::new();
    push_byte(&mut data, UNSTAKE_IX);
    assert(data@ =~= seq![UNSTAKE_IX]);
    push_u64(&mut data, input.share_amount);
    let mut outputs: Vec<OutputSlot> = Vec::new();
    outputs.push(OutputSlot::Measured(1, Direction::Change));
    outputs.push(OutputSlot::Measured(4, Direction::Change));
    outputs.push(OutputSlot::Zero);
    outputs.push(OutputSlot::Zero);
    assert(outputs@ =~= seq![
        OutputSlot::Measured(1usize, Direction::Change),
        OutputSlot::Measured(4usize, Direction::Change),
        OutputSlot::Zero,
        OutputSlot::Zero,
    ]);
    single_call(Instruction { program_id, accounts, data }, outputs)
}

/// The positions of the accounts of `harvest`.
pub open spec fn harvest_indices() -> Seq<usize> {
    seq![0usize, 1usize, 2usize, 3usize, 4usize, 5usize, 6usize, 7usize]
}

/// Harvest farm rewards: instruction 4. The reward token account (1) is
/// measured.
pub fn harvest(
    program_id: Pubkey,
    remaining_accounts: &[RemainingAccount],
    _input: HarvestInputWrapper,
) -> (r: Plan)
    requires
        remaining_accounts@.len() >= 8,
    ensures
        one_call(
            r,
            program_id,
            loaded_metas(remaining_accounts@, harvest_indices()),
            seq![HARVEST_IX],
            seq![
                OutputSlot::Measured(1usize, Direction::Change),
                OutputSlot::Zero,
                OutputSlot::Zero,
                OutputSlot::Zero,
            ],
        ),
{
    let index_array: [usize; 8] = [0, 1, 2, 3, 4, 5, 6, 7];
    assert(index_array@ =~= harvest_indices());
    let accounts = load_remaining_accounts(remaining_accounts, &index_array);
    let mut data: Vec<u8> = Vec::new();
    push_byte(&mut data, HARVEST_IX);
    assert(data@ =~= seq![HARVEST_IX]);
    let mut outputs: Vec<OutputSlot> = Vec::new();
    outputs.push(OutputSlot::Measured(1, Direction::Change));
    outputs.push(OutputSlot::Zero);
    outputs.push(OutputSlot::Zero);
    outputs.push(OutputSlot::Zero);
    assert(outputs@ =~= seq![
        OutputSlot::Measured(1usize, Direction::Change),
        OutputSlot::Zero,
        OutputSlot::Zero,
        OutputSlot::Zero,
    ]);
    single_call(Instruction { program_id, accounts, data }, outputs)
}

/// The positions of the accounts of a withdrawal of both tokens.
pub open spec fn remove_both_indices() -> Seq<usize> {
    seq![0usize, 1, 2, 3, 4, 5, 6, 7, 8, 9, 10]
}

/// The positions of the accounts of a withdrawal of one token.
pub open spec fn remove_one_indices() -> Seq<usize> {
    seq![0usize, 1, 2, 3, 4, 5, 6, 7, 8, 9]
}

/// Remove `lp_amount` pool tokens. Action 2 withdraws both tokens
/// (instruction 3 with the amount and two zero minimums, eleven accounts)
/// and measures the token accounts 7 and 8; action 3 withdraws one token
/// (instruction 5 with a minimum of one and the amount, ten accounts) and
/// measures the token account 7. Both measure the pool token account 4. Any
/// other action is `UnsupportedAction`.
pub fn remove_liquidity(
    program_id: Pubkey,
    remaining_accounts: &[RemainingAccount],
    input: RemoveLiquidityInputWrapper,
) -> (r: Result<Plan, ErrorCode>)
    requires
        remaining_accounts@.len() >= 5,
        input.action == 2 ==> remaining_accounts@.len() >= 11,
        input.action == 3 ==> remaining_accounts@.len() >= 10,
    ensures
        input.action == 2 ==> (r matches Ok(p) && one_call(
            p,
            program_id,
            loaded_metas(remaining_accounts@, remove_both_indices()),
            seq![REMOVE_LP_IX] + le64(input.lp_amount) + le64(0) + le64(0),
            seq![
                OutputSlot::Measured(7usize, Direction::Change),
                OutputSlot::Measured(8usize, Direction::Change),
                OutputSlot::Measured(4usize, Direction::Change),
                OutputSlot::Zero,
            ],
        )),
        input.action == 3 ==> (r matches Ok(p) && one_call(
            p,
            program_id,
            loaded_metas(remaining_accounts@, remove_one_indices()),
            seq![REMOVE_LP_SINGLE_IX] + le64(1) + le64(input.lp_amount),
            seq![
                OutputSlot::Measured(7usize, Direction::Change),
                OutputSlot::Zero,
                OutputSlot::Measured(4usize, Direction::Change),
                OutputSlot::Zero,
            ],
        )),
        input.action != 2 && input.action != 3 ==> r == Err::<Plan, ErrorCode>(
            ErrorCode::UnsupportedAction,
        ),
{
    let mut data: Vec<u8> = Vec::new();
    if input.action == 2 {
        let index_array: [usize; 11] = [0, 1, 2, 3, 4, 5, 6, 7, 8, 9, 10];
        assert(index_array@ =~= remove_both_indices());
        let accounts = load_remaining_accounts(remaining_accounts, &index_array);
        push_byte(&mut data, REMOVE_LP_IX);
        assert(data@ =~= seq![REMOVE_LP_IX]);
        push_u64(&mut data, input.lp_amount);
        push_u64(&mut data, 0);
        push_u64(&mut data, 0);
        let outputs = vec![
            OutputSlot::Measured(7, Direction::Change),
            OutputSlot::Measured(8, Direction::Change),
            OutputSlot::Measured(4, Direction::Change),
            OutputSlot::Zero,
        ];
        Ok(single_call(Instruction { program_id, accounts, data }, outputs))
    } else if input.action == 3 {
        let index_array: [usize; 10] = [0, 1, 2, 3, 4, 5, 6, 7, 8, 9];
        assert(index_array@ =~= remove_one_indices());
        let accounts = load_remaining_accounts(remaining_accounts, &index_array);
        push_byte(&mut data, REMOVE_LP_SINGLE_IX);
        assert(data@ =~= seq![REMOVE_LP_SINGLE_IX]);
        push_u64(&mut data, 1);
        push_u64(&mut data, input.lp_amount);
        let outputs = vec![
            OutputSlot::Measured(7, Direction::Change),
            OutputSlot::Zero,
            OutputSlot::Measured(4, Direction::Change),
            OutputSlot::Zero,
        ];
        Ok(single_call(Instruction { program_id, accounts, data }, outputs))
    } else {
        Err(ErrorCode::UnsupportedAction)
    }
}


} // verus!
