//! Adapter for Francium lending and farming: what each of its instructions invokes and
//! how its outputs are read.
use vstd::prelude::*;
use vstd::std_specs::convert::FromSpecImpl;
use crate::adapter_common::{
    AccountInfos, AccountMeta, Direction, ErrorCode, InputError, Instruction, Invocation, OutputSlot,
    Plan, RemainingAccount, call_is, encode_output, fixed_metas, le16, le32, load_all_accounts,
    load_remaining_accounts, loaded_meta, loaded_metas, meta, one_call, output_bytes, outputs_are,
    invoke_all, picked_infos, plan_of, push_readonly_tail, push_u16, read_array30_at, read_bool_at,
    read_u16_at, read_u32_at, read_u64_at, read_u8_at, readonly_tail, sighash, sighash_spec,
    single_call, slot_metas,
};
use crate::pack::{bool_byte, le64, push_byte, push_bytes, push_u64};
use crate::pubkey::Pubkey;

verus! {

/// Instruction number of a reserve deposit.
pub const DEPOSIT_RESERVE_ID: u8 = 4;

/// Instruction number of a reserve withdrawal.
pub const WITHDRAW_RESERVE_ID: u8 = 5;

/// Instruction number of a reward-pool deposit.
pub const DEPOSIT_REWARD_ID: u8 = 3;

/// Instruction number of a reward-pool withdrawal.
pub const WITHDRAW_REWARD_ID: u8 = 4;

/// Input of the instruction, as its bytes hold it.
#[derive(Clone, Copy, Debug, PartialEq, Eq)]
pub struct SupplyInputWrapper {
    pub token_in_amount: u64,
}

impl SupplyInputWrapper {
    /// Decode the input from its first 8 bytes, each field little-endian; later bytes are ignored.
    pub fn decode(input: &[u8]) -> (r: Result<SupplyInputWrapper, InputError>)
        ensures
            input@.len() < 8 ==> r == Err::<SupplyInputWrapper, InputError>(InputError::TooShort),
            input@.len() >= 8 ==> (r matches Ok(v) && le64(v.token_in_amount) == input@.subrange(0, 8)),
    {
        let token_in_amount = read_u64_at(input, 0)?;
        Ok(SupplyInputWrapper { token_in_amount })
    }
}

/// Input of the instruction, as its bytes hold it.
#[derive(Clone, Copy, Debug, PartialEq, Eq)]
pub struct UnsupplyInputWrapper {
    pub reserve_amount: u64,
}

impl UnsupplyInputWrapper {
    /// Decode the input from its first 8 bytes, each field little-endian; later bytes are ignored.
    pub fn decode(input: &[u8]) -> (r: Result<UnsupplyInputWrapper, InputError>)
        ensures
            input@.len() < 8 ==> r == Err::<UnsupplyInputWrapper, InputError>(InputError::TooShort),
            input@.len() >= 8 ==> (r matches Ok(v) && le64(v.reserve_amount) == input@.subrange(0, 8)),
    {
        let reserve_amount = read_u64_at(input, 0)?;
        Ok(UnsupplyInputWrapper { reserve_amount })
    }
}

/// Input of the instruction, as its bytes hold it.
#[derive(Clone, Copy, Debug, PartialEq, Eq)]
pub struct StakeInputWrapper {
}

impl StakeInputWrapper {
    /// Decode the input: it has no fields, so any bytes will do.
    pub fn decode(input: &[u8]) -> (r: Result<StakeInputWrapper, InputError>)
        ensures
            r == Ok::<StakeInputWrapper, InputError>(StakeInputWrapper {}),
    {
        Ok(StakeInputWrapper {})
    }
}

/// Input of the instruction, as its bytes hold it.
#[derive(Clone, Copy, Debug, PartialEq, Eq)]
pub struct UnstakeInputWrapper {
    pub reserve_out_amount: u64,
}

impl UnstakeInputWrapper {
    /// Decode the input from its first 8 bytes, each field little-endian; later bytes are ignored.
    pub fn decode(input: &[u8]) -> (r: Result<UnstakeInputWrapper, InputError>)
        ensures
            input@.len() < 8 ==> r == Err::<UnstakeInputWrapper, InputError>(InputError::TooShort),
            input@.len() >= 8 ==> (r matches Ok(v) && le64(v.reserve_out_amount) == input@.subrange(0, 8)),
    {
        let reserve_out_amount = read_u64_at(input, 0)?;
        Ok(UnstakeInputWrapper { reserve_out_amount })
    }
}

/// Output of the instruction: four amounts.
#[derive(Clone, Copy, Debug, PartialEq, Eq)]
pub struct SupplyOutputWrapper {
    pub reserve_out_amount: u64,
    pub supply_in_amount: u64,
    pub dummy_3: u64,
    pub dummy_4: u64,
}

impl SupplyOutputWrapper {
    /// The 32 output bytes: the four amounts, in order, little-endian.
    pub fn encode(&self) -> (r: Vec<u8>)
        ensures
            r@ == output_bytes(self.reserve_out_amount, self.supply_in_amount, self.dummy_3, self.dummy_4),
    {
        encode_output(self.reserve_out_amount, self.supply_in_amount, self.dummy_3, self.dummy_4)
    }
}

/// Output of the instruction: four amounts.
#[derive(Clone, Copy, Debug, PartialEq, Eq)]
pub struct UnsupplyOutputWrapper {
    pub token_out_amount: u64,
    pub reserve_in_amount: u64,
    pub dummy_3: u64,
    pub dummy_4: u64,
}

impl UnsupplyOutputWrapper {
    /// The 32 output bytes: the four amounts, in order, little-endian.
    pub fn encode(&self) -> (r: Vec<u8>)
        ensures
            r@ == output_bytes(self.token_out_amount, self.reserve_in_amount, self.dummy_3, self.dummy_4),
    {
        encode_output(self.token_out_amount, self.reserve_in_amount, self.dummy_3, self.dummy_4)
    }
}

/// Output of the instruction: four amounts.
#[derive(Clone, Copy, Debug, PartialEq, Eq)]
pub struct StakeOutputWrapper {
    pub reserve_in_amount: u64,
    pub dummy_2: u64,
    pub dummy_3: u64,
    pub dummy_4: u64,
}

impl StakeOutputWrapper {
    /// The 32 output bytes: the four amounts, in order, little-endian.
    pub fn encode(&self) -> (r: Vec<u8>)
        ensures
            r@ == output_bytes(self.reserve_in_amount, self.dummy_2, self.dummy_3, self.dummy_4),
    {
        encode_output(self.reserve_in_amount, self.dummy_2, self.dummy_3, self.dummy_4)
    }
}

/// Output of the instruction: four amounts.
#[derive(Clone, Copy, Debug, PartialEq, Eq)]
pub struct UnstakeOutputWrapper {
    pub reserve_out_amount: u64,
    pub dummy_2: u64,
    pub dummy_3: u64,
    pub dummy_4: u64,
}

impl UnstakeOutputWrapper {
    /// The 32 output bytes: the four amounts, in order, little-endian.
    pub fn encode(&self) -> (r: Vec<u8>)
        ensures
            r@ == output_bytes(self.reserve_out_amount, self.dummy_2, self.dummy_3, self.dummy_4),
    {
        encode_output(self.reserve_out_amount, self.dummy_2, self.dummy_3, self.dummy_4)
    }
}

/// The four output amounts as a tuple, to be read by position.
pub type SupplyOutputTuple = (u64, u64, u64, u64);

/// The four output amounts as a tuple, to be read by position.
pub type UnsupplyOutputTuple = (u64, u64, u64, u64);

/// The four output amounts as a tuple, to be read by position.
pub type StakeOutputTuple = (u64, u64, u64, u64);

/// The four output amounts as a tuple, to be read by position.
pub type UnstakeOutputTuple = (u64, u64, u64, u64);

impl From<SupplyOutputWrapper> for SupplyOutputTuple {
    fn from(result: SupplyOutputWrapper) -> Self {
        (result.reserve_out_amount, result.supply_in_amount, result.dummy_3, result.dummy_4)
    }
}

impl FromSpecImpl<SupplyOutputWrapper> for SupplyOutputTuple {
    open spec fn obeys_from_spec() -> bool {
        true
    }

    open spec fn from_spec(v: SupplyOutputWrapper) -> Self {
        (v.reserve_out_amount, v.supply_in_amount, v.dummy_3, v.dummy_4)
    }
}

impl From<UnsupplyOutputWrapper> for UnsupplyOutputTuple {
    fn from(result: UnsupplyOutputWrapper) -> Self {
        (result.token_out_amount, result.reserve_in_amount, result.dummy_3, result.dummy_4)
    }
}

impl FromSpecImpl<UnsupplyOutputWrapper> for UnsupplyOutputTuple {
    open spec fn obeys_from_spec() -> bool {
        true
    }

    open spec fn from_spec(v: UnsupplyOutputWrapper) -> Self {
        (v.token_out_amount, v.reserve_in_amount, v.dummy_3, v.dummy_4)
    }
}

impl From<StakeOutputWrapper> for StakeOutputTuple {
    fn from(result: StakeOutputWrapper) -> Self {
        (result.reserve_in_amount, result.dummy_2, result.dummy_3, result.dummy_4)
    }
}

impl FromSpecImpl<StakeOutputWrapper> for StakeOutputTuple {
    open spec fn obeys_from_spec() -> bool {
        true
    }

    open spec fn from_spec(v: StakeOutputWrapper) -> Self {
        (v.reserve_in_amount, v.dummy_2, v.dummy_3, v.dummy_4)
    }
}

impl From<UnstakeOutputWrapper> for UnstakeOutputTuple {
    fn from(result: UnstakeOutputWrapper) -> Self {
        (result.reserve_out_amount, result.dummy_2, result.dummy_3, result.dummy_4)
    }
}

impl FromSpecImpl<UnstakeOutputWrapper> for UnstakeOutputTuple {
    open spec fn obeys_from_spec() -> bool {
        true
    }

    open spec fn from_spec(v: UnstakeOutputWrapper) -> Self {
        (v.reserve_out_amount, v.dummy_2, v.dummy_3, v.dummy_4)
    }
}

/// The account slots of `supply`.
pub open spec fn supply_slots() -> Seq<(usize, bool, bool)> {
    seq![
        (0usize, false, true),
        (1usize, false, true),
        (2usize, false, true),
        (3usize, false, true),
        (4usize, false, true),
        (5usize, false, true),
        (6usize, false, true),
        (7usize, true, true),
        (8usize, false, false),
        (9usize, false, false),
    ]
}

/// Supply `token_in_amount` to a reserve: instruction 4 with the amount, on
/// the first ten accounts. The reserve token account (1) and the supplied
/// token account (0) are measured.
pub fn supply(
    program_id: Pubkey,
    remaining_accounts: &[RemainingAccount],
    input: SupplyInputWrapper,
) -> (r: Plan)
    requires
        remaining_accounts@.len() >= 10,
    ensures
        one_call(
            r,
            program_id,
            slot_metas(remaining_accounts@, supply_slots()),
            seq![DEPOSIT_RESERVE_ID] + le64(input.token_in_amount),
            seq![
                OutputSlot::Measured(1usize, Direction::Change),
                OutputSlot::Measured(0usize, Direction::Change),
                OutputSlot::Zero,
                OutputSlot::Zero,
            ],
        ),
{
    let slots: [(usize, bool, bool); 10] = [
            (0, false, true),
            (1, false, true),
            (2, false, true),
            (3, false, true),
            (4, false, true),
            (5, false, true),
            (6, false, true),
            (7, true, true),
            (8, false, false),
            (9, false, false),
        ];
    assert(slots@ =~= supply_slots());
    let accounts = fixed_metas(remaining_accounts, &slots);
    let mut data: Vec<u8> = Vec::new();
    push_byte(&mut data, DEPOSIT_RESERVE_ID);
    assert(data@ =~= seq![DEPOSIT_RESERVE_ID]);
    push_u64(&mut data, input.token_in_amount);
    let mut outputs: Vec<OutputSlot> = Vec::new();
    outputs.push(OutputSlot::Measured(1, Direction::Change));
    outputs.push(OutputSlot::Measured(0, Direction::Change));
    outputs.push(OutputSlot::Zero);
    outputs.push(OutputSlot::Zero);
    assert(outputs@ =~= seq![
        OutputSlot::Measured(1usize, Direction::Change),
        OutputSlot::Measured(0usize, Direction::Change),
        OutputSlot::Zero,
        OutputSlot::Zero,
    ]);
    single_call(Instruction { program_id, accounts, data }, outputs)
}

/// The account slots of `unsupply`.
pub open spec fn unsupply_slots() -> Seq<(usize, bool, bool)> {
    seq![
        (0usize, false, true),
        (1usize, false, true),
        (2usize, false, true),
        (3usize, false, true),
        (4usize, false, true),
        (5usize, false, true),
        (6usize, false, true),
        (7usize, true, true),
        (8usize, false, false),
        (9usize, false, false),
    ]
}

/// Redeem `reserve_amount` reserve tokens: instruction 5 with the amount, on
/// the first ten accounts. The reserve token account (0) and the token
/// account (1) are measured.
pub fn unsupply(
    program_id: Pubkey,
    remaining_accounts: &[RemainingAccount],
    input: UnsupplyInputWrapper,
) -> (r: Plan)
    requires
        remaining_accounts@.len() >= 10,
    ensures
        one_call(
            r,
            program_id,
            slot_metas(remaining_accounts@, unsupply_slots()),
            seq![WITHDRAW_RESERVE_ID] + le64(input.reserve_amount),
            seq![
                OutputSlot::Measured(1usize, Direction::Change),
                OutputSlot::Measured(0usize, Direction::Change),
                OutputSlot::Zero,
                OutputSlot::Zero,
            ],
        ),
{
    let slots: [(usize, bool, bool); 10] = [
            (0, false, true),
            (1, false, true),
            (2, false, true),
            (3, false, true),
            (4, false, true),
            (5, false, true),
            (6, false, true),
            (7, true, true),
            (8, false, false),
            (9, false, false),
        ];
    assert(slots@ =~= unsupply_slots());
    let accounts = fixed_metas(remaining_accounts, &slots);
    let mut data: Vec<u8> = Vec::new();
    push_byte(&mut data, WITHDRAW_RESERVE_ID);
    assert(data@ =~= seq![WITHDRAW_RESERVE_ID]);
    push_u64(&mut data, input.reserve_amount);
    let mut outputs: Vec<OutputSlot> = Vec::new();
    outputs.push(OutputSlot::Measured(1, Direction::Change));
    outputs.push(OutputSlot::Measured(0, Direction::Change));
    outputs.push(OutputSlot::Zero);
    outputs.push(OutputSlot::Zero);
    assert(outputs@ =~= seq![
        OutputSlot::Measured(1usize, Direction::Change),
        OutputSlot::Measured(0usize, Direction::Change),
        OutputSlot::Zero,
        OutputSlot::Zero,
    ]);
    single_call(Instruction { program_id, accounts, data }, outputs)
}

/// The account slots of `stake`.
pub open spec fn stake_slots() -> Seq<(usize, bool, bool)> {
    seq![
        (0usize, true, true),
        (1usize, false, true),
        (2usize, false, true),
        (3usize, false, true),
        (4usize, false, true),
        (5usize, false, true),
        (6usize, false, true),
        (7usize, false, true),
        (8usize, false, true),
        (9usize, false, true),
        (10usize, false, false),
        (11usize, false, false),
    ]
}

/// Stake reserve tokens in the reward pool: instruction 3 with a zero
/// amount, on the first twelve accounts. The reserve token account (2) is
/// measured.
pub fn stake(
    program_id: Pubkey,
    remaining_accounts: &[RemainingAccount],
    _input: StakeInputWrapper,
) -> (r: Plan)
    requires
        remaining_accounts@.len() >= 12,
    ensures
        one_call(
            r,
            program_id,
            slot_metas(remaining_accounts@, stake_slots()),
            seq![DEPOSIT_REWARD_ID] + le64(0u64),
            seq![
                OutputSlot::Measured(2usize, Direction::Change),
                OutputSlot::Zero,
                OutputSlot::Zero,
                OutputSlot::Zero,
            ],
        ),
{
    let slots: [(usize, bool, bool); 12] = [
            (0, true, true),
            (1, false, true),
            (2, false, true),
            (3, false, true),
            (4, false, true),
            (5, false, true),
            (6, false, true),
            (7, false, true),
            (8, false, true),
            (9, false, true),
            (10, false, false),
            (11, false, false),
        ];
    assert(slots@ =~= stake_slots());
    let accounts = fixed_metas(remaining_accounts, &slots);
    let mut data: Vec<u8> = Vec::new();
    push_byte(&mut data, DEPOSIT_REWARD_ID);
    assert(data@ =~= seq![DEPOSIT_REWARD_ID]);
    push_u64(&mut data, 0u64);
    let mut outputs: Vec<OutputSlot> = Vec::new();
    outputs.push(OutputSlot::Measured(2, Direction::Change));
    outputs.push(OutputSlot::Zero);
    outputs.push(OutputSlot::Zero);
    outputs.push(OutputSlot::Zero);
    assert(outputs@ =~= seq![
        OutputSlot::Measured(2usize, Direction::Change),
        OutputSlot::Zero,
        OutputSlot::Zero,
        OutputSlot::Zero,
    ]);
    single_call(Instruction { program_id, accounts, data }, outputs)
}

/// The account slots of `unstake`.
pub open spec fn unstake_slots() -> Seq<(usize, bool, bool)> {
    seq![
        (0usize, true, true),
        (1usize, false, true),
        (2usize, false, true),
        (3usize, false, true),
        (4usize, false, true),
        (5usize, false, true),
        (6usize, false, true),
        (7usize, false, true),
        (8usize, false, true),
        (9usize, false, true),
        (10usize, false, false),
        (11usize, false, false),
    ]
}

/// Unstake `reserve_out_amount` from the reward pool: instruction 4 with the
/// amount, on the first twelve accounts. The reserve token account (2) is
/// measured.
pub fn unstake(
    program_id: Pubkey,
    remaining_accounts: &[RemainingAccount],
    input: UnstakeInputWrapper,
) -> (r: Plan)
    requires
        remaining_accounts@.len() >= 12,
    ensures
        one_call(
            r,
            program_id,
            slot_metas(remaining_accounts@, unstake_slots()),
            seq![WITHDRAW_REWARD_ID] + le64(input.reserve_out_amount),
            seq![
                OutputSlot::Measured(2usize, Direction::Change),
                OutputSlot::Zero,
                OutputSlot::Zero,
                OutputSlot::Zero,
            ],
        ),
{
    let slots: [(usize, bool, bool); 12] = [
            (0, true, true),
            (1, false, true),
            (2, false, true),
            (3, false, true),
            (4, false, true),
            (5, false, true),
            (6, false, true),
            (7, false, true),
            (8, false, true),
            (9, false, true),
            (10, false, false),
            (11, false, false),
        ];
    assert(slots@ =~= unstake_slots());
    let accounts = fixed_metas(remaining_accounts, &slots);
    let mut data: Vec<u8> = Vec::new();
    push_byte(&mut data, WITHDRAW_REWARD_ID);
    assert(data@ =~= seq![WITHDRAW_REWARD_ID]);
    push_u64(&mut data, input.reserve_out_amount);
    let mut outputs: Vec<OutputSlot> = Vec::new();
    outputs.push(OutputSlot::Measured(2, Direction::Change));
    outputs.push(OutputSlot::Zero);
    outputs.push(OutputSlot::Zero);
    outputs.push(OutputSlot::Zero);
    assert(outputs@ =~= seq![
        OutputSlot::Measured(2usize, Direction::Change),
        OutputSlot::Zero,
        OutputSlot::Zero,
        OutputSlot::Zero,
    ]);
    single_call(Instruction { program_id, accounts, data }, outputs)
}


} // verus!
