//! Adapter for Lido staking: what each of its instructions invokes and
//! how its outputs are read.
use vstd::prelude::*;
use vstd::std_specs::convert::FromSpecImpl;
use crate::adapter_common::{
    AccountInfos, AccountMeta, Direction, ErrorCode, InputError, Instruction, Invocation, OutputSlot,
    Plan, RemainingAccount, call_is, encode_output, fixed_metas, le16, le32, load_all_accounts,
    load_remaining_accounts, loaded_meta, loaded_metas, meta, one_call, output_bytes, outputs_are,
    invoke_all, picked_infos, plan_of, push_readonly_tail, push_u16, read_array30_at, read_bool_at,
    read_u16_at, read_u32_at, read_u64_at, read_u8_at, readonly_tail, sighash, sighash_spec,
    single_call, slot_metas,
};
use crate::pack::{bool_byte, le64, push_byte, push_bytes, push_u64};
use crate::pubkey::Pubkey;

verus! {

/// Input of the instruction, as its bytes hold it.
#[derive(Clone, Copy, Debug, PartialEq, Eq)]
pub struct DepositInputWrapper {
    pub amount: u64,
}

impl DepositInputWrapper {
    /// Decode the input from its first 8 bytes, each field little-endian; later bytes are ignored.
    pub fn decode(input: &[u8]) -> (r: Result<DepositInputWrapper, InputError>)
        ensures
            input@.len() < 8 ==> r == Err::<DepositInputWrapper, InputError>(InputError::TooShort),
            input@.len() >= 8 ==> (r matches Ok(v) && le64(v.amount) == input@.subrange(0, 8)),
    {
        let amount = read_u64_at(input, 0)?;
        Ok(DepositInputWrapper { amount })
    }
}

/// Input of the instruction, as its bytes hold it.
#[derive(Clone, Copy, Debug, PartialEq, Eq)]
pub struct WithdrawInputWrapper {
    pub instruction: u8,
    pub amount: u64,
    pub validator_index: u32,
}

impl WithdrawInputWrapper {
    /// Decode the input from its first 13 bytes, each field little-endian; later bytes are ignored.
    pub fn decode(input: &[u8]) -> (r: Result<WithdrawInputWrapper, InputError>)
        ensures
            input@.len() < 13 ==> r == Err::<WithdrawInputWrapper, InputError>(InputError::TooShort),
            input@.len() >= 13 ==> (r matches Ok(v) && v.instruction == input@[0] && le64(v.amount) == input@.subrange(1, 9) && le32(v.validator_index) == input@.subrange(9, 13)),
    {
        let instruction = read_u8_at(input, 0)?;
        let amount = read_u64_at(input, 1)?;
        let validator_index = read_u32_at(input, 9)?;
        Ok(WithdrawInputWrapper { instruction, amount, validator_index })
    }
}

/// Output of the instruction: four amounts.
#[derive(Clone, Copy, Debug, PartialEq, Eq)]
pub struct DepositOutputWrapper {
    pub share_amount: u64,
    pub dummy_2: u64,
    pub dummy_3: u64,
    pub dummy_4: u64,
}

impl DepositOutputWrapper {
    /// The 32 output bytes: the four amounts, in order, little-endian.
    pub fn encode(&self) -> (r: Vec<u8>)
        ensures
            r@ == output_bytes(self.share_amount, self.dummy_2, self.dummy_3, self.dummy_4),
    {
        encode_output(self.share_amount, self.dummy_2, self.dummy_3, self.dummy_4)
    }
}

/// Output of the instruction: four amounts.
#[derive(Clone, Copy, Debug, PartialEq, Eq)]
pub struct WithdrawOutputWrapper {
    pub lp_amount: u64,
    pub dummy_2: u64,
    pub dummy_3: u64,
    pub dummy_4: u64,
}

impl WithdrawOutputWrapper {
    /// The 32 output bytes: the four amounts, in order, little-endian.
    pub fn encode(&self) -> (r: Vec<u8>)
        ensures
            r@ == output_bytes(self.lp_amount, self.dummy_2, self.dummy_3, self.dummy_4),
    {
        encode_output(self.lp_amount, self.dummy_2, self.dummy_3, self.dummy_4)
    }
}

/// The four output amounts as a tuple, to be read by position.
pub type DepositOutputTuple = (u64, u64, u64, u64);

/// The four output amounts as a tuple, to be read by position.
pub type WithdrawOutputTuple = (u64, u64, u64, u64);

/// The four output amounts as a tuple, to be read by position.
pub type SupplyOutputTuple = (u64, u64, u64, u64);

/// The four output amounts as a tuple, to be read by position.
pub type UnsupplyOutputTuple = (u64, u64, u64, u64);

impl From<DepositOutputWrapper> for DepositOutputTuple {
    fn from(result: DepositOutputWrapper) -> Self {
        (result.share_amount, result.dummy_2, result.dummy_3, result.dummy_4)
    }
}

impl FromSpecImpl<DepositOutputWrapper> for DepositOutputTuple {
    open spec fn obeys_from_spec() -> bool {
        true
    }

    open spec fn from_spec(v: DepositOutputWrapper) -> Self {
        (v.share_amount, v.dummy_2, v.dummy_3, v.dummy_4)
    }
}

impl From<WithdrawOutputWrapper> for WithdrawOutputTuple {
    fn from(result: WithdrawOutputWrapper) -> Self {
        (result.lp_amount, result.dummy_2, result.dummy_3, result.dummy_4)
    }
}

impl FromSpecImpl<WithdrawOutputWrapper> for WithdrawOutputTuple {
    open spec fn obeys_from_spec() -> bool {
        true
    }

    open spec fn from_spec(v: WithdrawOutputWrapper) -> Self {
        (v.lp_amount, v.dummy_2, v.dummy_3, v.dummy_4)
    }
}

/// The account slots of `deposit`.
pub open spec fn deposit_slots() -> Seq<(usize, bool, bool)> {
    seq![
        (0usize, false, true),
        (1usize, true, true),
        (2usize, false, true),
        (3usize, false, true),
        (4usize, false, true),
        (5usize, false, false),
        (6usize, false, false),
        (7usize, false, false),
    ]
}

/// Deposit into Solido: instruction 1 followed by the input bytes, as they
/// came, on the first eight accounts. The gain of the recipient stSOL
/// account (2) is measured.
pub fn deposit(program_id: Pubkey, remaining_accounts: &[RemainingAccount], input: &[u8]) -> (r: Plan)
    requires
        remaining_accounts@.len() >= 8,
    ensures
        one_call(
            r,
            program_id,
            slot_metas(remaining_accounts@, deposit_slots()),
            seq![1u8] + input@,
            seq![
                OutputSlot::Measured(2usize, Direction::Gain),
                OutputSlot::Zero,
                OutputSlot::Zero,
                OutputSlot::Zero,
            ],
        ),
{
    let slots: [(usize, bool, bool); 8] = [
        (0, false, true),
        (1, true, true),
        (2, false, true),
        (3, false, true),
        (4, false, true),
        (5, false, false),
        (6, false, false),
        (7, false, false),
    ];
    assert(slots@ =~= deposit_slots());
    let accounts = fixed_metas(remaining_accounts, &slots);
    let mut data: Vec<u8> = Vec::new();
    push_byte(&mut data, 1);
    assert(data@ =~= seq![1u8]);
    push_bytes(&mut data, input);
    let outputs = vec![
        OutputSlot::Measured(2, Direction::Gain),
        OutputSlot::Zero,
        OutputSlot::Zero,
        OutputSlot::Zero,
    ];
    single_call(Instruction { program_id, accounts, data }, outputs)
}

/// The account slots of a version 2 withdrawal (instruction 23).
pub open spec fn withdraw_v2_slots() -> Seq<(usize, bool, bool)> {
    seq![
        (0usize, false, true),
        (1usize, true, false),
        (2usize, false, true),
        (3usize, false, true),
        (4usize, false, false),
        (5usize, false, true),
        (6usize, true, true),
        (7usize, false, false),
        (8usize, false, true),
        (9usize, false, false),
        (10usize, false, false),
        (11usize, false, false),
        (12usize, false, false),
    ]
}

/// The account slots of a version 1 withdrawal.
pub open spec fn withdraw_v1_slots() -> Seq<(usize, bool, bool)> {
    seq![
        (0usize, false, true),
        (1usize, true, false),
        (2usize, false, true),
        (3usize, false, true),
        (4usize, false, false),
        (5usize, false, true),
        (6usize, true, true),
        (7usize, false, false),
        (8usize, false, false),
        (9usize, false, false),
        (10usize, false, false),
        (11usize, false, false),
    ]
}

/// Address of the stake program, `Stake11111111111111111111111111111111111111`.
pub open spec fn stake_program_id() -> Seq<u8> {
    seq![
        6u8, 161, 216, 23, 145, 55, 84, 42, 152, 52, 55, 189, 254, 42, 122, 178, 85, 127, 83, 92,
        138, 120, 114, 43, 104, 164, 157, 192, 0, 0, 0, 0,
    ]
}

/// Address of the clock sysvar, `SysvarC1ock11111111111111111111111111111111`.
pub open spec fn clock_sysvar_id() -> Seq<u8> {
    seq![
        6u8, 167, 213, 23, 24, 199, 116, 201, 40, 86, 99, 152, 105, 29, 94, 182, 139, 94, 184, 163,
        155, 75, 109, 92, 115, 85, 91, 33, 0, 0, 0, 0,
    ]
}

/// The stake program's instruction deactivating `stake`, signed by
/// `authorized`, by `anchor_lang::solana_program::stake::instruction::deactivate_stake`.
/// Its source gives the stake program's id, the stake account writable and
/// not signing, then the clock sysvar read-only and not signing, then the
/// authority read-only and signing, and the data of the `Deactivate` variant
/// (number 5) as bincode writes it. The two addresses are the crate's
/// `declare_id!` constants, decoded from base 58.
#[verifier::external_body]
fn deactivate_stake(stake: &Pubkey, authorized: &Pubkey) -> (r: Instruction)
    ensures
        r.program_id@ == stake_program_id(),
        r.accounts@.len() == 3,
        r.accounts@[0] == meta(*stake, false, true),
        r.accounts@[1].pubkey@ == clock_sysvar_id(),
        !r.accounts@[1].is_signer && !r.accounts@[1].is_writable,
        r.accounts@[2] == meta(*authorized, true, false),
        r.data@ == seq![5u8, 0, 0, 0],
{
    let ix = anchor_lang::solana_program::stake::instruction::deactivate_stake(
        &anchor_lang::solana_program::pubkey::Pubkey::new_from_array(stake.0),
        &anchor_lang::solana_program::pubkey::Pubkey::new_from_array(authorized.0),
    );
    let accounts = ix.accounts.iter().map(|m| AccountMeta { pubkey: Pubkey(m.pubkey.to_bytes()), is_signer: m.is_signer, is_writable: m.is_writable }).collect();
    Instruction { program_id: Pubkey(ix.program_id.to_bytes()), accounts, data: ix.data }
}

/// Withdraw from Solido: the input bytes, as they came, as the instruction,
/// on thirteen accounts for instruction 23 (version 2) and twelve otherwise;
/// then have the stake program deactivate the stake account 1 with the
/// authority 6, handing over only account 1. There is no output.
pub fn withdraw(program_id: Pubkey, remaining_accounts: &[RemainingAccount], input: &[u8], decoded: WithdrawInputWrapper) -> (r: Plan)
    requires
        decoded.instruction == 23 ==> remaining_accounts@.len() >= 13,
        decoded.instruction != 23 ==> remaining_accounts@.len() >= 12,
    ensures
        r.invocations@.len() == 2,
        call_is(
            r.invocations@[0],
            program_id,
            slot_metas(
                remaining_accounts@,
                if decoded.instruction == 23 {
                    withdraw_v2_slots()
                } else {
                    withdraw_v1_slots()
                },
            ),
            input@,
            AccountInfos::All,
        ),
        r.invocations@[1].instruction.program_id@ == stake_program_id(),
        r.invocations@[1].instruction.accounts@.len() == 3,
        r.invocations@[1].instruction.accounts@[0] == meta(remaining_accounts@[1].key, false, true),
        r.invocations@[1].instruction.accounts@[1].pubkey@ == clock_sysvar_id(),
        !r.invocations@[1].instruction.accounts@[1].is_signer,
        !r.invocations@[1].instruction.accounts@[1].is_writable,
        r.invocations@[1].instruction.accounts@[2] == meta(remaining_accounts@[6].key, true, false),
        r.invocations@[1].instruction.data@ == seq![5u8, 0, 0, 0],
        r.invocations@[1].infos matches AccountInfos::Picked(v) && v@ == seq![1usize],
        r.outputs is None,
{
    let accounts = if decoded.instruction == 23 {
        let slots: [(usize, bool, bool); 13] = [
            (0, false, true),
            (1, true, false),
            (2, false, true),
            (3, false, true),
            (4, false, false),
            (5, false, true),
            (6, true, true),
            (7, false, false),
            (8, false, true),
            (9, false, false),
            (10, false, false),
            (11, false, false),
            (12, false, false),
        ];
        assert(slots@ =~= withdraw_v2_slots());
        fixed_metas(remaining_accounts, &slots)
    } else {
        let slots: [(usize, bool, bool); 12] = [
            (0, false, true),
            (1, true, false),
            (2, false, true),
            (3, false, true),
            (4, false, false),
            (5, false, true),
            (6, true, true),
            (7, false, false),
            (8, false, false),
            (9, false, false),
            (10, false, false),
            (11, false, false),
        ];
        assert(slots@ =~= withdraw_v1_slots());
        fixed_metas(remaining_accounts, &slots)
    };
    let mut data: Vec<u8> = Vec::new();
    push_bytes(&mut data, input);
    assert(data@ =~= input@);
    let mut invocations: Vec<Invocation> = Vec::new();
    invocations.push(invoke_all(Instruction { program_id, accounts, data }));
    let deactivate = deactivate_stake(&remaining_accounts[1].key, &remaining_accounts[6].key);
    let mut picked: Vec<usize> = Vec::new();
    picked.push(1);
    assert(picked@ =~= seq![1usize]);
    invocations.push(Invocation { instruction: deactivate, infos: AccountInfos::Picked(picked) });
    Plan { invocations, outputs: None }
}


} // verus!
