//! Adapter for Marinade liquid staking: what each of its instructions invokes and
//! how its outputs are read.
use vstd::prelude::*;
use vstd::std_specs::convert::FromSpecImpl;
use crate::adapter_common::{
    AccountInfos, AccountMeta, Direction, ErrorCode, InputError, Instruction, Invocation, OutputSlot,
    Plan, RemainingAccount, call_is, encode_output, fixed_metas, le16, le32, load_all_accounts,
    load_remaining_accounts, loaded_meta, loaded_metas, meta, one_call, output_bytes, outputs_are,
    invoke_all, picked_infos, plan_of, push_readonly_tail, push_u16, read_array30_at, read_bool_at,
    read_u16_at, read_u32_at, read_u64_at, read_u8_at, readonly_tail, sighash, sighash_spec,
    single_call, slot_metas,
};
use crate::pack::{bool_byte, le64, push_byte, push_bytes, push_u64};
use crate::pubkey::Pubkey;

verus! {

/// Input of the instruction, as its bytes hold it.
#[derive(Clone, Copy, Debug, PartialEq, Eq)]
pub struct DepositInputWrapper {
    pub deposit_amount: u64,
}

impl DepositInputWrapper {
    /// Decode the input from its first 8 bytes, each field little-endian; later bytes are ignored.
    pub fn decode(input: &[u8]) -> (r: Result<DepositInputWrapper, InputError>)
        ensures
            input@.len() < 8 ==> r == Err::<DepositInputWrapper, InputError>(InputError::TooShort),
            input@.len() >= 8 ==> (r matches Ok(v) && le64(v.deposit_amount) == input@.subrange(0, 8)),
    {
        let deposit_amount = read_u64_at(input, 0)?;
        Ok(DepositInputWrapper { deposit_amount })
    }
}

/// Input of the instruction, as its bytes hold it.
#[derive(Clone, Copy, Debug, PartialEq, Eq)]
pub struct WithdrawInputWrapper {
    pub withdraw_amount: u64,
}

impl WithdrawInputWrapper {
    /// Decode the input from its first 8 bytes, each field little-endian; later bytes are ignored.
    pub fn decode(input: &[u8]) -> (r: Result<WithdrawInputWrapper, InputError>)
        ensures
            input@.len() < 8 ==> r == Err::<WithdrawInputWrapper, InputError>(InputError::TooShort),
            input@.len() >= 8 ==> (r matches Ok(v) && le64(v.withdraw_amount) == input@.subrange(0, 8)),
    {
        let withdraw_amount = read_u64_at(input, 0)?;
        Ok(WithdrawInputWrapper { withdraw_amount })
    }
}

/// Output of the instruction: four amounts.
#[derive(Clone, Copy, Debug, PartialEq, Eq)]
pub struct DepositOutputWrapper {
    pub share_amount: u64,
    pub deposit_amount: u64,
    pub dummy_3: u64,
    pub dummy_4: u64,
}

impl DepositOutputWrapper {
    /// The 32 output bytes: the four amounts, in order, little-endian.
    pub fn encode(&self) -> (r: Vec<u8>)
        ensures
            r@ == output_bytes(self.share_amount, self.deposit_amount, self.dummy_3, self.dummy_4),
    {
        encode_output(self.share_amount, self.deposit_amount, self.dummy_3, self.dummy_4)
    }
}

/// Output of the instruction: four amounts.
#[derive(Clone, Copy, Debug, PartialEq, Eq)]
pub struct WithdrawOutputWrapper {
    pub withdraw_amount: u64,
    pub share_amount: u64,
    pub dummy_3: u64,
    pub dummy_4: u64,
}

impl WithdrawOutputWrapper {
    /// The 32 output bytes: the four amounts, in order, little-endian.
    pub fn encode(&self) -> (r: Vec<u8>)
        ensures
            r@ == output_bytes(self.withdraw_amount, self.share_amount, self.dummy_3, self.dummy_4),
    {
        encode_output(self.withdraw_amount, self.share_amount, self.dummy_3, self.dummy_4)
    }
}

/// The positions of the accounts of `deposit`.
pub open spec fn deposit_indices() -> Seq<usize> {
    seq![0usize, 1usize, 2usize, 3usize, 4usize, 5usize, 6usize, 7usize, 8usize, 9usize, 10usize]
}

/// Stake `deposit_amount` for liquid staking tokens: the `deposit`
/// instruction with the amount, on the first eleven accounts as they are
/// flagged. The share (7) and token (6) accounts are measured.
pub fn deposit(
    program_id: Pubkey,
    remaining_accounts: &[RemainingAccount],
    input: DepositInputWrapper,
) -> (r: Plan)
    requires
        remaining_accounts@.len() >= 11,
    ensures
        one_call(
            r,
            program_id,
            loaded_metas(remaining_accounts@, deposit_indices()),
            sighash_spec("global"@, "deposit"@) + le64(input.deposit_amount),
            seq![
                OutputSlot::Measured(7usize, Direction::Change),
                OutputSlot::Measured(6usize, Direction::Change),
                OutputSlot::Zero,
                OutputSlot::Zero,
            ],
        ),
{
    let index_array: [usize; 11] = [0, 1, 2, 3, 4, 5, 6, 7, 8, 9, 10];
    assert(index_array@ =~= deposit_indices());
    let accounts = load_remaining_accounts(remaining_accounts, &index_array);
    let mut data: Vec<u8> = Vec::new();
    let selector = sighash("global", "deposit");
    push_bytes(&mut data, selector.as_slice());
    assert(data@ =~= sighash_spec("global"@, "deposit"@));
    push_u64(&mut data, input.deposit_amount);
    let mut outputs: Vec<OutputSlot> = Vec::new();
    outputs.push(OutputSlot::Measured(7, Direction::Change));
    outputs.push(OutputSlot::Measured(6, Direction::Change));
    outputs.push(OutputSlot::Zero);
    outputs.push(OutputSlot::Zero);
    assert(outputs@ =~= seq![
        OutputSlot::Measured(7usize, Direction::Change),
        OutputSlot::Measured(6usize, Direction::Change),
        OutputSlot::Zero,
        OutputSlot::Zero,
    ]);
    single_call(Instruction { program_id, accounts, data }, outputs)
}

/// The positions of the accounts of `withdraw`.
pub open spec fn withdraw_indices() -> Seq<usize> {
    seq![0usize, 1usize, 2usize, 3usize, 4usize, 5usize, 6usize, 7usize, 8usize, 9usize, 10usize]
}

/// Unstake `withdraw_amount` liquid staking tokens at once: the
/// `liquid_unstake` instruction with the amount. The share (5) and token (7)
/// accounts are measured.
pub fn withdraw(
    program_id: Pubkey,
    remaining_accounts: &[RemainingAccount],
    input: WithdrawInputWrapper,
) -> (r: Plan)
    requires
        remaining_accounts@.len() >= 11,
    ensures
        one_call(
            r,
            program_id,
            loaded_metas(remaining_accounts@, withdraw_indices()),
            sighash_spec("global"@, "liquid_unstake"@) + le64(input.withdraw_amount),
            seq![
                OutputSlot::Measured(7usize, Direction::Change),
                OutputSlot::Measured(5usize, Direction::Change),
                OutputSlot::Zero,
                OutputSlot::Zero,
            ],
        ),
{
    let index_array: [usize; 11] = [0, 1, 2, 3, 4, 5, 6, 7, 8, 9, 10];
    assert(index_array@ =~= withdraw_indices());
    let accounts = load_remaining_accounts(remaining_accounts, &index_array);
    let mut data: Vec<u8> = Vec::new();
    let selector = sighash("global", "liquid_unstake");
    push_bytes(&mut data, selector.as_slice());
    assert(data@ =~= sighash_spec("global"@, "liquid_unstake"@));
    push_u64(&mut data, input.withdraw_amount);
    let mut outputs: Vec<OutputSlot> = Vec::new();
    outputs.push(OutputSlot::Measured(7, Direction::Change));
    outputs.push(OutputSlot::Measured(5, Direction::Change));
    outputs.push(OutputSlot::Zero);
    outputs.push(OutputSlot::Zero);
    assert(outputs@ =~= seq![
        OutputSlot::Measured(7usize, Direction::Change),
        OutputSlot::Measured(5usize, Direction::Change),
        OutputSlot::Zero,
        OutputSlot::Zero,
    ]);
    single_call(Instruction { program_id, accounts, data }, outputs)
}


} // verus!
