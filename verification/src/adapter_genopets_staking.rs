//! Adapter for Genopets staking: what each of its instructions invokes and
//! how its outputs are read.
use vstd::prelude::*;
use vstd::std_specs::convert::FromSpecImpl;
use crate::adapter_common::{
    AccountInfos, AccountMeta, Direction, ErrorCode, InputError, Instruction, Invocation, OutputSlot,
    Plan, RemainingAccount, call_is, encode_output, fixed_metas, le16, le32, load_all_accounts,
    load_remaining_accounts, loaded_meta, loaded_metas, meta, one_call, output_bytes, outputs_are,
    invoke_all, picked_infos, plan_of, push_readonly_tail, push_u16, read_array30_at, read_bool_at,
    read_u16_at, read_u32_at, read_u64_at, read_u8_at, readonly_tail, sighash, sighash_spec,
    single_call, slot_metas,
};
use crate::pack::{bool_byte, le64, push_byte, push_bytes, push_u64};
use crate::pubkey::Pubkey;

verus! {

/// Input of the instruction, as its bytes hold it.
#[derive(Clone, Copy, Debug, PartialEq, Eq)]
pub struct StakeInputWrapper {
    pub amount: u64,
    pub lock_for_months: u8,
    pub as_sgene: bool,
}

impl StakeInputWrapper {
    /// Decode the input from its first 10 bytes, each field little-endian, a flag as 0 or 1; later bytes are ignored.
    pub fn decode(input: &[u8]) -> (r: Result<StakeInputWrapper, InputError>)
        ensures
            input@.len() < 10 ==> r == Err::<StakeInputWrapper, InputError>(InputError::TooShort),
            input@.len() >= 10 && !(input@[9] <= 1) ==> r == Err::<StakeInputWrapper, InputError>(InputError::InvalidBool),
            input@.len() >= 10 && input@[9] <= 1 ==> (r matches Ok(v) && le64(v.amount) == input@.subrange(0, 8) && v.lock_for_months == input@[8] && v.as_sgene == (input@[9] == 1)),
    {
        let amount = read_u64_at(input, 0)?;
        let lock_for_months = read_u8_at(input, 8)?;
        let as_sgene = read_bool_at(input, 9)?;
        Ok(StakeInputWrapper { amount, lock_for_months, as_sgene })
    }
}

/// Input of the instruction, as its bytes hold it.
#[derive(Clone, Copy, Debug, PartialEq, Eq)]
pub struct UnstakeInputWrapper {
    pub as_sgene: bool,
}

impl UnstakeInputWrapper {
    /// Decode the input from its first 1 bytes, each field little-endian, a flag as 0 or 1; later bytes are ignored.
    pub fn decode(input: &[u8]) -> (r: Result<UnstakeInputWrapper, InputError>)
        ensures
            input@.len() < 1 ==> r == Err::<UnstakeInputWrapper, InputError>(InputError::TooShort),
            input@.len() >= 1 && !(input@[0] <= 1) ==> r == Err::<UnstakeInputWrapper, InputError>(InputError::InvalidBool),
            input@.len() >= 1 && input@[0] <= 1 ==> (r matches Ok(v) && v.as_sgene == (input@[0] == 1)),
    {
        let as_sgene = read_bool_at(input, 0)?;
        Ok(UnstakeInputWrapper { as_sgene })
    }
}

/// Input of the instruction, as its bytes hold it.
#[derive(Clone, Copy, Debug, PartialEq, Eq)]
pub struct HarvestInputWrapper {
}

impl HarvestInputWrapper {
    /// Decode the input: it has no fields, so any bytes will do.
    pub fn decode(input: &[u8]) -> (r: Result<HarvestInputWrapper, InputError>)
        ensures
            r == Ok::<HarvestInputWrapper, InputError>(HarvestInputWrapper {}),
    {
        Ok(HarvestInputWrapper {})
    }
}

/// Output of the instruction: four amounts.
#[derive(Clone, Copy, Debug, PartialEq, Eq)]
pub struct StakeOutputWrapper {
    pub token_in_amount: u64,
    pub dummy_2: u64,
    pub dummy_3: u64,
    pub dummy_4: u64,
}

impl StakeOutputWrapper {
    /// The 32 output bytes: the four amounts, in order, little-endian.
    pub fn encode(&self) -> (r: Vec<u8>)
        ensures
            r@ == output_bytes(self.token_in_amount, self.dummy_2, self.dummy_3, self.dummy_4),
    {
        encode_output(self.token_in_amount, self.dummy_2, self.dummy_3, self.dummy_4)
    }
}

/// Output of the instruction: four amounts.
#[derive(Clone, Copy, Debug, PartialEq, Eq)]
pub struct UnstakeOutputWrapper {
    pub token_out_amount: u64,
    pub dummy_2: u64,
    pub dummy_3: u64,
    pub dummy_4: u64,
}

impl UnstakeOutputWrapper {
    /// The 32 output bytes: the four amounts, in order, little-endian.
    pub fn encode(&self) -> (r: Vec<u8>)
        ensures
            r@ == output_bytes(self.token_out_amount, self.dummy_2, self.dummy_3, self.dummy_4),
    {
        encode_output(self.token_out_amount, self.dummy_2, self.dummy_3, self.dummy_4)
    }
}

/// Output of the instruction: four amounts.
#[derive(Clone, Copy, Debug, PartialEq, Eq)]
pub struct HarvestOutputWrapper {
    pub dummy_1: u64,
    pub dummy_2: u64,
    pub dummy_3: u64,
    pub dummy_4: u64,
}

impl HarvestOutputWrapper {
    /// The 32 output bytes: the four amounts, in order, little-endian.
    pub fn encode(&self) -> (r: Vec<u8>)
        ensures
            r@ == output_bytes(self.dummy_1, self.dummy_2, self.dummy_3, self.dummy_4),
    {
        encode_output(self.dummy_1, self.dummy_2, self.dummy_3, self.dummy_4)
    }
}

/// The four output amounts as a tuple, to be read by position.
pub type StakeOutputTuple = (u64, u64, u64, u64);

/// The four output amounts as a tuple, to be read by position.
pub type UnstakeOutputTuple = (u64, u64, u64, u64);

/// The four output amounts as a tuple, to be read by position.
pub type HarvestOutputTuple = (u64, u64, u64, u64);

impl From<StakeOutputWrapper> for StakeOutputTuple {
    fn from(result: StakeOutputWrapper) -> Self {
        (result.token_in_amount, result.dummy_2, result.dummy_3, result.dummy_4)
    }
}

impl FromSpecImpl<StakeOutputWrapper> for StakeOutputTuple {
    open spec fn obeys_from_spec() -> bool {
        true
    }

    open spec fn from_spec(v: StakeOutputWrapper) -> Self {
        (v.token_in_amount, v.dummy_2, v.dummy_3, v.dummy_4)
    }
}

impl From<UnstakeOutputWrapper> for UnstakeOutputTuple {
    fn from(result: UnstakeOutputWrapper) -> Self {
        (result.token_out_amount, result.dummy_2, result.dummy_3, result.dummy_4)
    }
}

impl FromSpecImpl<UnstakeOutputWrapper> for UnstakeOutputTuple {
    open spec fn obeys_from_spec() -> bool {
        true
    }

    open spec fn from_spec(v: UnstakeOutputWrapper) -> Self {
        (v.token_out_amount, v.dummy_2, v.dummy_3, v.dummy_4)
    }
}

impl From<HarvestOutputWrapper> for HarvestOutputTuple {
    fn from(result: HarvestOutputWrapper) -> Self {
        (result.dummy_1, result.dummy_2, result.dummy_3, result.dummy_4)
    }
}

impl FromSpecImpl<HarvestOutputWrapper> for HarvestOutputTuple {
    open spec fn obeys_from_spec() -> bool {
        true
    }

    open spec fn from_spec(v: HarvestOutputWrapper) -> Self {
        (v.dummy_1, v.dummy_2, v.dummy_3, v.dummy_4)
    }
}

/// The positions of the accounts of `stake`.
pub open spec fn stake_indices() -> Seq<usize> {
    seq![0usize, 1usize, 2usize, 3usize, 4usize, 5usize, 6usize, 7usize, 8usize, 9usize, 10usize, 11usize, 12usize, 13usize, 14usize, 15usize]
}

/// Stake `amount` for `lock_for_months` months: the `stake` instruction
/// with the amount, the months and the flag, on the first sixteen accounts
/// as they are flagged. The token account (5) is measured.
pub fn stake(
    program_id: Pubkey,
    remaining_accounts: &[RemainingAccount],
    input: StakeInputWrapper,
) -> (r: Plan)
    requires
        remaining_accounts@.len() >= 16,
    ensures
        one_call(
            r,
            program_id,
            loaded_metas(remaining_accounts@, stake_indices()),
            sighash_spec("global"@, "stake"@) + le64(input.amount) + seq![input.lock_for_months] + seq![bool_byte(input.as_sgene)],
            seq![
                OutputSlot::Measured(5usize, Direction::Change),
                OutputSlot::Zero,
                OutputSlot::Zero,
                OutputSlot::Zero,
            ],
        ),
{
    let index_array: [usize; 16] = [0, 1, 2, 3, 4, 5, 6, 7, 8, 9, 10, 11, 12, 13, 14, 15];
    assert(index_array@ =~= stake_indices());
    let accounts = load_remaining_accounts(remaining_accounts, &index_array);
    let mut data: Vec<u8> = Vec::new();
    let selector = sighash("global", "stake");
    push_bytes(&mut data, selector.as_slice());
    assert(data@ =~= sighash_spec("global"@, "stake"@));
    push_u64(&mut data, input.amount);
    push_byte(&mut data, input.lock_for_months);
    push_byte(&mut data, if input.as_sgene { 1 } else { 0 });
    let mut outputs: Vec<OutputSlot> = Vec::new();
    outputs.push(OutputSlot::Measured(5, Direction::Change));
    outputs.push(OutputSlot::Zero);
    outputs.push(OutputSlot::Zero);
    outputs.push(OutputSlot::Zero);
    assert(outputs@ =~= seq![
        OutputSlot::Measured(5usize, Direction::Change),
        OutputSlot::Zero,
        OutputSlot::Zero,
        OutputSlot::Zero,
    ]);
    single_call(Instruction { program_id, accounts, data }, outputs)
}

/// The positions of the accounts of `harvest`.
pub open spec fn harvest_indices() -> Seq<usize> {
    seq![0usize, 1usize, 2usize, 3usize, 4usize, 5usize, 6usize, 7usize, 8usize, 9usize, 10usize]
}

/// Claim rewards: the `claim_rewards` instruction on the first eleven
/// accounts as they are flagged. Nothing is measured.
pub fn harvest(
    program_id: Pubkey,
    remaining_accounts: &[RemainingAccount],
    _input: HarvestInputWrapper,
) -> (r: Plan)
    requires
        remaining_accounts@.len() >= 11,
    ensures
        one_call(
            r,
            program_id,
            loaded_metas(remaining_accounts@, harvest_indices()),
            sighash_spec("global"@, "claim_rewards"@),
            seq![
                OutputSlot::Zero,
                OutputSlot::Zero,
                OutputSlot::Zero,
                OutputSlot::Zero,
            ],
        ),
{
    let index_array: [usize; 11] = [0, 1, 2, 3, 4, 5, 6, 7, 8, 9, 10];
    assert(index_array@ =~= harvest_indices());
    let accounts = load_remaining_accounts(remaining_accounts, &index_array);
    let mut data: Vec<u8> = Vec::new();
    let selector = sighash("global", "claim_rewards");
    push_bytes(&mut data, selector.as_slice());
    assert(data@ =~= sighash_spec("global"@, "claim_rewards"@));
    let mut outputs: Vec<OutputSlot> = Vec::new();
    outputs.push(OutputSlot::Zero);
    outputs.push(OutputSlot::Zero);
    outputs.push(OutputSlot::Zero);
    outputs.push(OutputSlot::Zero);
    assert(outputs@ =~= seq![
        OutputSlot::Zero,
        OutputSlot::Zero,
        OutputSlot::Zero,
        OutputSlot::Zero,
    ]);
    single_call(Instruction { program_id, accounts, data }, outputs)
}

/// The positions of the accounts of `unstake`, as staking tokens or not.
pub open spec fn unstake_indices(as_sgene: bool) -> Seq<usize> {
    if as_sgene {
        seq![0usize, 1, 2, 3, 4, 5, 6, 7, 8, 9, 10, 11, 12, 13, 14, 15, 16, 17]
    } else {
        seq![0usize, 1, 2, 3, 4, 5, 6, 7, 8, 9, 10]
    }
}

/// Unstake: as staking tokens, the `withdraw_as_sgene` instruction on the
/// first eighteen accounts, measuring the token account 4; otherwise the
/// `withdraw` instruction with a false flag on the first eleven accounts,
/// measuring the token account 5. The accounts are flagged as they are.
pub fn unstake(
    program_id: Pubkey,
    remaining_accounts: &[RemainingAccount],
    input: UnstakeInputWrapper,
) -> (r: Plan)
    requires
        input.as_sgene ==> remaining_accounts@.len() >= 18,
        !input.as_sgene ==> remaining_accounts@.len() >= 11,
    ensures
        one_call(
            r,
            program_id,
            loaded_metas(remaining_accounts@, unstake_indices(input.as_sgene)),
            if input.as_sgene {
                sighash_spec("global"@, "withdraw_as_sgene"@)
            } else {
                sighash_spec("global"@, "withdraw"@) + seq![0u8]
            },
            seq![
                OutputSlot::Measured(if input.as_sgene { 4usize } else { 5usize }, Direction::Change),
                OutputSlot::Zero,
                OutputSlot::Zero,
                OutputSlot::Zero,
            ],
        ),
{
    let mut data: Vec<u8> = Vec::new();
    let accounts;
    let unstake_token_account_index: usize;
    if input.as_sgene {
        let selector = sighash("global", "withdraw_as_sgene");
        push_bytes(&mut data, selector.as_slice());
        assert(data@ =~= sighash_spec("global"@, "withdraw_as_sgene"@));
        let index_array: [usize; 18] = [0, 1, 2, 3, 4, 5, 6, 7, 8, 9, 10, 11, 12, 13, 14, 15, 16, 17];
        assert(index_array@ =~= unstake_indices(true));
        accounts = load_remaining_accounts(remaining_accounts, &index_array);
        unstake_token_account_index = 4;
    } else {
        let selector = sighash("global", "withdraw");
        push_bytes(&mut data, selector.as_slice());
        assert(data@ =~= sighash_spec("global"@, "withdraw"@));
        push_byte(&mut data, 0);
        let index_array: [usize; 11] = [0, 1, 2, 3, 4, 5, 6, 7, 8, 9, 10];
        assert(index_array@ =~= unstake_indices(false));
        accounts = load_remaining_accounts(remaining_accounts, &index_array);
        unstake_token_account_index = 5;
    }
    let outputs = vec![
        OutputSlot::Measured(unstake_token_account_index, Direction::Change),
        OutputSlot::Zero,
        OutputSlot::Zero,
        OutputSlot::Zero,
    ];
    single_call(Instruction { program_id, accounts, data }, outputs)
}


} // verus!
