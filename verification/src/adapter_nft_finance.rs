//! Adapter for NFT Finance: what each of its instructions invokes and
//! how its outputs are read.
use vstd::prelude::*;
use vstd::std_specs::convert::FromSpecImpl;
use crate::adapter_common::{
    AccountInfos, AccountMeta, Direction, ErrorCode, InputError, Instruction, Invocation, OutputSlot,
    Plan, RemainingAccount, call_is, encode_output, fixed_metas, le16, le32, load_all_accounts,
    load_remaining_accounts, loaded_meta, loaded_metas, meta, one_call, output_bytes, outputs_are,
    invoke_all, picked_infos, plan_of, push_readonly_tail, push_u16, read_array30_at, read_bool_at,
    read_u16_at, read_u32_at, read_u64_at, read_u8_at, readonly_tail, sighash, sighash_spec,
    single_call, slot_metas,
};
use crate::pack::{bool_byte, le64, push_byte, push_bytes, push_u64};
use crate::pubkey::Pubkey;

verus! {

/// Input of the instruction, as its bytes hold it.
#[derive(Clone, Copy, Debug, PartialEq, Eq)]
pub struct LockNftInputWrapper {
}

impl LockNftInputWrapper {
    /// Decode the input: it has no fields, so any bytes will do.
    pub fn decode(input: &[u8]) -> (r: Result<LockNftInputWrapper, InputError>)
        ensures
            r == Ok::<LockNftInputWrapper, InputError>(LockNftInputWrapper {}),
    {
        Ok(LockNftInputWrapper {})
    }
}

/// Input of the instruction, as its bytes hold it.
#[derive(Clone, Copy, Debug, PartialEq, Eq)]
pub struct UnlockNftInputWrapper {
}

impl UnlockNftInputWrapper {
    /// Decode the input: it has no fields, so any bytes will do.
    pub fn decode(input: &[u8]) -> (r: Result<UnlockNftInputWrapper, InputError>)
        ensures
            r == Ok::<UnlockNftInputWrapper, InputError>(UnlockNftInputWrapper {}),
    {
        Ok(UnlockNftInputWrapper {})
    }
}

/// Input of the instruction, as its bytes hold it.
#[derive(Clone, Copy, Debug, PartialEq, Eq)]
pub struct StakeProofInputWrapper {
    pub prove_token_amount: u64,
}

impl StakeProofInputWrapper {
    /// Decode the input from its first 8 bytes, each field little-endian; later bytes are ignored.
    pub fn decode(input: &[u8]) -> (r: Result<StakeProofInputWrapper, InputError>)
        ensures
            input@.len() < 8 ==> r == Err::<StakeProofInputWrapper, InputError>(InputError::TooShort),
            input@.len() >= 8 ==> (r matches Ok(v) && le64(v.prove_token_amount) == input@.subrange(0, 8)),
    {
        let prove_token_amount = read_u64_at(input, 0)?;
        Ok(StakeProofInputWrapper { prove_token_amount })
    }
}

/// Input of the instruction, as its bytes hold it.
#[derive(Clone, Copy, Debug, PartialEq, Eq)]
pub struct UnstakeProofInputWrapper {
    pub farm_token_amount: u64,
}

impl UnstakeProofInputWrapper {
    /// Decode the input from its first 8 bytes, each field little-endian; later bytes are ignored.
    pub fn decode(input: &[u8]) -> (r: Result<UnstakeProofInputWrapper, InputError>)
        ensures
            input@.len() < 8 ==> r == Err::<UnstakeProofInputWrapper, InputError>(InputError::TooShort),
            input@.len() >= 8 ==> (r matches Ok(v) && le64(v.farm_token_amount) == input@.subrange(0, 8)),
    {
        let farm_token_amount = read_u64_at(input, 0)?;
        Ok(UnstakeProofInputWrapper { farm_token_amount })
    }
}

/// Input of the instruction, as its bytes hold it.
#[derive(Clone, Copy, Debug, PartialEq, Eq)]
pub struct ClaimInputWrapper {
}

impl ClaimInputWrapper {
    /// Decode the input: it has no fields, so any bytes will do.
    pub fn decode(input: &[u8]) -> (r: Result<ClaimInputWrapper, InputError>)
        ensures
            r == Ok::<ClaimInputWrapper, InputError>(ClaimInputWrapper {}),
    {
        Ok(ClaimInputWrapper {})
    }
}

/// Output of the instruction: four amounts.
#[derive(Clone, Copy, Debug, PartialEq, Eq)]
pub struct LockNftOutputWrapper {
    pub prove_token_amount: u64,
    pub dummy_2: u64,
    pub dummy_3: u64,
    pub dummy_4: u64,
}

impl LockNftOutputWrapper {
    /// The 32 output bytes: the four amounts, in order, little-endian.
    pub fn encode(&self) -> (r: Vec<u8>)
        ensures
            r@ == output_bytes(self.prove_token_amount, self.dummy_2, self.dummy_3, self.dummy_4),
    {
        encode_output(self.prove_token_amount, self.dummy_2, self.dummy_3, self.dummy_4)
    }
}

/// Output of the instruction: four amounts.
#[derive(Clone, Copy, Debug, PartialEq, Eq)]
pub struct UnlockNftOutputWrapper {
    pub dummy_1: u64,
    pub dummy_2: u64,
    pub dummy_3: u64,
    pub dummy_4: u64,
}

impl UnlockNftOutputWrapper {
    /// The 32 output bytes: the four amounts, in order, little-endian.
    pub fn encode(&self) -> (r: Vec<u8>)
        ensures
            r@ == output_bytes(self.dummy_1, self.dummy_2, self.dummy_3, self.dummy_4),
    {
        encode_output(self.dummy_1, self.dummy_2, self.dummy_3, self.dummy_4)
    }
}

/// Output of the instruction: four amounts.
#[derive(Clone, Copy, Debug, PartialEq, Eq)]
pub struct StakeProofOutputWrapper {
    pub farm_token_amount: u64,
    pub dummy_2: u64,
    pub dummy_3: u64,
    pub dummy_4: u64,
}

impl StakeProofOutputWrapper {
    /// The 32 output bytes: the four amounts, in order, little-endian.
    pub fn encode(&self) -> (r: Vec<u8>)
        ensures
            r@ == output_bytes(self.farm_token_amount, self.dummy_2, self.dummy_3, self.dummy_4),
    {
        encode_output(self.farm_token_amount, self.dummy_2, self.dummy_3, self.dummy_4)
    }
}

/// Output of the instruction: four amounts.
#[derive(Clone, Copy, Debug, PartialEq, Eq)]
pub struct UnstakeProofOutputWrapper {
    pub prove_token_amount: u64,
    pub dummy_2: u64,
    pub dummy_3: u64,
    pub dummy_4: u64,
}

impl UnstakeProofOutputWrapper {
    /// The 32 output bytes: the four amounts, in order, little-endian.
    pub fn encode(&self) -> (r: Vec<u8>)
        ensures
            r@ == output_bytes(self.prove_token_amount, self.dummy_2, self.dummy_3, self.dummy_4),
    {
        encode_output(self.prove_token_amount, self.dummy_2, self.dummy_3, self.dummy_4)
    }
}

/// Output of the instruction: four amounts.
#[derive(Clone, Copy, Debug, PartialEq, Eq)]
pub struct ClaimOutputWrapper {
    pub reward_token_amount: u64,
    pub dummy_2: u64,
    pub dummy_3: u64,
    pub dummy_4: u64,
}

impl ClaimOutputWrapper {
    /// The 32 output bytes: the four amounts, in order, little-endian.
    pub fn encode(&self) -> (r: Vec<u8>)
        ensures
            r@ == output_bytes(self.reward_token_amount, self.dummy_2, self.dummy_3, self.dummy_4),
    {
        encode_output(self.reward_token_amount, self.dummy_2, self.dummy_3, self.dummy_4)
    }
}

/// The four output amounts as a tuple, to be read by position.
pub type LockNftOutputTuple = (u64, u64, u64, u64);

/// The four output amounts as a tuple, to be read by position.
pub type UnlockNftOutputTuple = (u64, u64, u64, u64);

/// The four output amounts as a tuple, to be read by position.
pub type StakeProofOutputTuple = (u64, u64, u64, u64);

/// The four output amounts as a tuple, to be read by position.
pub type UnstakeProofOutputTuple = (u64, u64, u64, u64);

/// The four output amounts as a tuple, to be read by position.
pub type ClaimOutputTuple = (u64, u64, u64, u64);

impl From<LockNftOutputWrapper> for LockNftOutputTuple {
    fn from(result: LockNftOutputWrapper) -> Self {
        (result.prove_token_amount, result.dummy_2, result.dummy_3, result.dummy_4)
    }
}

impl FromSpecImpl<LockNftOutputWrapper> for LockNftOutputTuple {
    open spec fn obeys_from_spec() -> bool {
        true
    }

    open spec fn from_spec(v: LockNftOutputWrapper) -> Self {
        (v.prove_token_amount, v.dummy_2, v.dummy_3, v.dummy_4)
    }
}

impl From<UnlockNftOutputWrapper> for UnlockNftOutputTuple {
    fn from(result: UnlockNftOutputWrapper) -> Self {
        (result.dummy_1, result.dummy_2, result.dummy_3, result.dummy_4)
    }
}

impl FromSpecImpl<UnlockNftOutputWrapper> for UnlockNftOutputTuple {
    open spec fn obeys_from_spec() -> bool {
        true
    }

    open spec fn from_spec(v: UnlockNftOutputWrapper) -> Self {
        (v.dummy_1, v.dummy_2, v.dummy_3, v.dummy_4)
    }
}

impl From<StakeProofOutputWrapper> for StakeProofOutputTuple {
    fn from(result: StakeProofOutputWrapper) -> Self {
        (result.farm_token_amount, result.dummy_2, result.dummy_3, result.dummy_4)
    }
}

impl FromSpecImpl<StakeProofOutputWrapper> for StakeProofOutputTuple {
    open spec fn obeys_from_spec() -> bool {
        true
    }

    open spec fn from_spec(v: StakeProofOutputWrapper) -> Self {
        (v.farm_token_amount, v.dummy_2, v.dummy_3, v.dummy_4)
    }
}

impl From<UnstakeProofOutputWrapper> for UnstakeProofOutputTuple {
    fn from(result: UnstakeProofOutputWrapper) -> Self {
        (result.prove_token_amount, result.dummy_2, result.dummy_3, result.dummy_4)
    }
}

impl FromSpecImpl<UnstakeProofOutputWrapper> for UnstakeProofOutputTuple {
    open spec fn obeys_from_spec() -> bool {
        true
    }

    open spec fn from_spec(v: UnstakeProofOutputWrapper) -> Self {
        (v.prove_token_amount, v.dummy_2, v.dummy_3, v.dummy_4)
    }
}

impl From<ClaimOutputWrapper> for ClaimOutputTuple {
    fn from(result: ClaimOutputWrapper) -> Self {
        (result.reward_token_amount, result.dummy_2, result.dummy_3, result.dummy_4)
    }
}

impl FromSpecImpl<ClaimOutputWrapper> for ClaimOutputTuple {
    open spec fn obeys_from_spec() -> bool {
        true
    }

    open spec fn from_spec(v: ClaimOutputWrapper) -> Self {
        (v.reward_token_amount, v.dummy_2, v.dummy_3, v.dummy_4)
    }
}

/// The account slots of `lock_nft`.
pub open spec fn lock_nft_slots() -> Seq<(usize, bool, bool)> {
    seq![
        (0usize, true, true),
        (1usize, false, true),
        (2usize, false, false),
        (3usize, false, false),
        (4usize, false, false),
        (5usize, false, true),
        (6usize, false, true),
        (7usize, false, true),
        (8usize, false, true),
        (9usize, false, true),
        (10usize, false, true),
        (11usize, false, false),
        (12usize, false, false),
    ]
}

/// Lock an NFT for proof tokens: the `stake` instruction. The gain of the
/// proof token account (7) is measured.
pub fn lock_nft(
    program_id: Pubkey,
    remaining_accounts: &[RemainingAccount],
    _input: LockNftInputWrapper,
) -> (r: Plan)
    requires
        remaining_accounts@.len() >= 13,
    ensures
        one_call(
            r,
            program_id,
            slot_metas(remaining_accounts@, lock_nft_slots()),
            sighash_spec("global"@, "stake"@),
            seq![
                OutputSlot::Measured(7usize, Direction::Gain),
                OutputSlot::Zero,
                OutputSlot::Zero,
                OutputSlot::Zero,
            ],
        ),
{
    let slots: [(usize, bool, bool); 13] = [
            (0, true, true),
            (1, false, true),
            (2, false, false),
            (3, false, false),
            (4, false, false),
            (5, false, true),
            (6, false, true),
            (7, false, true),
            (8, false, true),
            (9, false, true),
            (10, false, true),
            (11, false, false),
            (12, false, false),
        ];
    assert(slots@ =~= lock_nft_slots());
    let accounts = fixed_metas(remaining_accounts, &slots);
    let mut data: Vec<u8> = Vec::new();
    let selector = sighash("global", "stake");
    push_bytes(&mut data, selector.as_slice());
    assert(data@ =~= sighash_spec("global"@, "stake"@));
    let mut outputs: Vec<OutputSlot> = Vec::new();
    outputs.push(OutputSlot::Measured(7, Direction::Gain));
    outputs.push(OutputSlot::Zero);
    outputs.push(OutputSlot::Zero);
    outputs.push(OutputSlot::Zero);
    assert(outputs@ =~= seq![
        OutputSlot::Measured(7usize, Direction::Gain),
        OutputSlot::Zero,
        OutputSlot::Zero,
        OutputSlot::Zero,
    ]);
    single_call(Instruction { program_id, accounts, data }, outputs)
}

/// The account slots of `unlock_nft`.
pub open spec fn unlock_nft_slots() -> Seq<(usize, bool, bool)> {
    seq![
        (0usize, true, true),
        (1usize, false, true),
        (2usize, false, false),
        (3usize, false, false),
        (4usize, false, false),
        (5usize, false, true),
        (6usize, false, true),
        (7usize, false, true),
        (8usize, false, true),
        (9usize, false, true),
        (10usize, false, true),
        (11usize, false, false),
    ]
}

/// Unlock an NFT: the `unstake` instruction. Nothing is measured.
pub fn unlock_nft(
    program_id: Pubkey,
    remaining_accounts: &[RemainingAccount],
    _input: UnlockNftInputWrapper,
) -> (r: Plan)
    requires
        remaining_accounts@.len() >= 12,
    ensures
        one_call(
            r,
            program_id,
            slot_metas(remaining_accounts@, unlock_nft_slots()),
            sighash_spec("global"@, "unstake"@),
            seq![
                OutputSlot::Zero,
                OutputSlot::Zero,
                OutputSlot::Zero,
                OutputSlot::Zero,
            ],
        ),
{
    let slots: [(usize, bool, bool); 12] = [
            (0, true, true),
            (1, false, true),
            (2, false, false),
            (3, false, false),
            (4, false, false),
            (5, false, true),
            (6, false, true),
            (7, false, true),
            (8, false, true),
            (9, false, true),
            (10, false, true),
            (11, false, false),
        ];
    assert(slots@ =~= unlock_nft_slots());
    let accounts = fixed_metas(remaining_accounts, &slots);
    let mut data: Vec<u8> = Vec::new();
    let selector = sighash("global", "unstake");
    push_bytes(&mut data, selector.as_slice());
    assert(data@ =~= sighash_spec("global"@, "unstake"@));
    let mut outputs: Vec<OutputSlot> = Vec::new();
    outputs.push(OutputSlot::Zero);
    outputs.push(OutputSlot::Zero);
    outputs.push(OutputSlot::Zero);
    outputs.push(OutputSlot::Zero);
    assert(outputs@ =~= seq![
        OutputSlot::Zero,
        OutputSlot::Zero,
        OutputSlot::Zero,
        OutputSlot::Zero,
    ]);
    single_call(Instruction { program_id, accounts, data }, outputs)
}

/// The account slots of `stake_proof`.
pub open spec fn stake_proof_slots() -> Seq<(usize, bool, bool)> {
    seq![
        (0usize, true, true),
        (1usize, false, false),
        (2usize, false, true),
        (3usize, false, true),
        (4usize, false, true),
        (5usize, false, true),
        (6usize, false, true),
        (7usize, false, true),
        (8usize, false, true),
        (9usize, false, false),
    ]
}

/// Stake `prove_token_amount` proof tokens in the farm: the `deposit`
/// instruction with the amount. The gain of the farm token account (4) is
/// measured.
pub fn stake_proof(
    program_id: Pubkey,
    remaining_accounts: &[RemainingAccount],
    input: StakeProofInputWrapper,
) -> (r: Plan)
    requires
        remaining_accounts@.len() >= 10,
    ensures
        one_call(
            r,
            program_id,
            slot_metas(remaining_accounts@, stake_proof_slots()),
            sighash_spec("global"@, "deposit"@) + le64(input.prove_token_amount),
            seq![
                OutputSlot::Measured(4usize, Direction::Gain),
                OutputSlot::Zero,
                OutputSlot::Zero,
                OutputSlot::Zero,
            ],
        ),
{
    let slots: [(usize, bool, bool); 10] = [
            (0, true, true),
            (1, false, false),
            (2, false, true),
            (3, false, true),
            (4, false, true),
            (5, false, true),
            (6, false, true),
            (7, false, true),
            (8, false, true),
            (9, false, false),
        ];
    assert(slots@ =~= stake_proof_slots());
    let accounts = fixed_metas(remaining_accounts, &slots);
    let mut data: Vec<u8> = Vec::new();
    let selector = sighash("global", "deposit");
    push_bytes(&mut data, selector.as_slice());
    assert(data@ =~= sighash_spec("global"@, "deposit"@));
    push_u64(&mut data, input.prove_token_amount);
    let mut outputs: Vec<OutputSlot> = Vec::new();
    outputs.push(OutputSlot::Measured(4, Direction::Gain));
    outputs.push(OutputSlot::Zero);
    outputs.push(OutputSlot::Zero);
    outputs.push(OutputSlot::Zero);
    assert(outputs@ =~= seq![
        OutputSlot::Measured(4usize, Direction::Gain),
        OutputSlot::Zero,
        OutputSlot::Zero,
        OutputSlot::Zero,
    ]);
    single_call(Instruction { program_id, accounts, data }, outputs)
}

/// The account slots of `unstake_proof`.
pub open spec fn unstake_proof_slots() -> Seq<(usize, bool, bool)> {
    seq![
        (0usize, true, true),
        (1usize, false, false),
        (2usize, false, true),
        (3usize, false, true),
        (4usize, false, true),
        (5usize, false, true),
        (6usize, false, true),
        (7usize, false, true),
        (8usize, false, true),
        (9usize, false, false),
    ]
}

/// Unstake `farm_token_amount` farm tokens: the `withdraw` instruction with
/// the amount. The gain of the proof token account (3) is measured.
pub fn unstake_proof(
    program_id: Pubkey,
    remaining_accounts: &[RemainingAccount],
    input: UnstakeProofInputWrapper,
) -> (r: Plan)
    requires
        remaining_accounts@.len() >= 10,
    ensures
        one_call(
            r,
            program_id,
            slot_metas(remaining_accounts@, unstake_proof_slots()),
            sighash_spec("global"@, "withdraw"@) + le64(input.farm_token_amount),
            seq![
                OutputSlot::Measured(3usize, Direction::Gain),
                OutputSlot::Zero,
                OutputSlot::Zero,
                OutputSlot::Zero,
            ],
        ),
{
    let slots: [(usize, bool, bool); 10] = [
            (0, true, true),
            (1, false, false),
            (2, false, true),
            (3, false, true),
            (4, false, true),
            (5, false, true),
            (6, false, true),
            (7, false, true),
            (8, false, true),
            (9, false, false),
        ];
    assert(slots@ =~= unstake_proof_slots());
    let accounts = fixed_metas(remaining_accounts, &slots);
    let mut data: Vec<u8> = Vec::new();
    let selector = sighash("global", "withdraw");
    push_bytes(&mut data, selector.as_slice());
    assert(data@ =~= sighash_spec("global"@, "withdraw"@));
    push_u64(&mut data, input.farm_token_amount);
    let mut outputs: Vec<OutputSlot> = Vec::new();
    outputs.push(OutputSlot::Measured(3, Direction::Gain));
    outputs.push(OutputSlot::Zero);
    outputs.push(OutputSlot::Zero);
    outputs.push(OutputSlot::Zero);
    assert(outputs@ =~= seq![
        OutputSlot::Measured(3usize, Direction::Gain),
        OutputSlot::Zero,
        OutputSlot::Zero,
        OutputSlot::Zero,
    ]);
    single_call(Instruction { program_id, accounts, data }, outputs)
}

/// The account slots of `claim`.
pub open spec fn claim_slots() -> Seq<(usize, bool, bool)> {
    seq![
        (0usize, true, true),
        (1usize, false, false),
        (2usize, false, true),
        (3usize, false, true),
        (4usize, false, true),
        (5usize, false, true),
        (6usize, false, true),
        (7usize, false, false),
    ]
}

/// Claim farm rewards: the `claim` instruction. The gain of the reward
/// token account (2) is measured.
pub fn claim(
    program_id: Pubkey,
    remaining_accounts: &[RemainingAccount],
    _input: ClaimInputWrapper,
) -> (r: Plan)
    requires
        remaining_accounts@.len() >= 8,
    ensures
        one_call(
            r,
            program_id,
            slot_metas(remaining_accounts@, claim_slots()),
            sighash_spec("global"@, "claim"@),
            seq![
                OutputSlot::Measured(2usize, Direction::Gain),
                OutputSlot::Zero,
                OutputSlot::Zero,
                OutputSlot::Zero,
            ],
        ),
{
    let slots: [(usize, bool, bool); 8] = [
            (0, true, true),
            (1, false, false),
            (2, false, true),
            (3, false, true),
            (4, false, true),
            (5, false, true),
            (6, false, true),
            (7, false, false),
        ];
    assert(slots@ =~= claim_slots());
    let accounts = fixed_metas(remaining_accounts, &slots);
    let mut data: Vec<u8> = Vec::new();
    let selector = sighash("global", "claim");
    push_bytes(&mut data, selector.as_slice());
    assert(data@ =~= sighash_spec("global"@, "claim"@));
    let mut outputs: Vec<OutputSlot> = Vec::new();
    outputs.push(OutputSlot::Measured(2, Direction::Gain));
    outputs.push(OutputSlot::Zero);
    outputs.push(OutputSlot::Zero);
    outputs.push(OutputSlot::Zero);
    assert(outputs@ =~= seq![
        OutputSlot::Measured(2usize, Direction::Gain),
        OutputSlot::Zero,
        OutputSlot::Zero,
        OutputSlot::Zero,
    ]);
    single_call(Instruction { program_id, accounts, data }, outputs)
}


} // verus!
