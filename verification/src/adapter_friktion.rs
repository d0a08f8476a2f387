//! Adapter for Friktion volts: what each of its instructions invokes and
//! how its outputs are read.
use vstd::prelude::*;
use vstd::std_specs::convert::FromSpecImpl;
use crate::adapter_common::{
    AccountInfos, AccountMeta, Direction, ErrorCode, InputError, Instruction, Invocation, OutputSlot,
    Plan, RemainingAccount, call_is, encode_output, fixed_metas, le16, le32, load_all_accounts,
    load_remaining_accounts, loaded_meta, loaded_metas, meta, one_call, output_bytes, outputs_are,
    invoke_all, picked_infos, plan_of, push_readonly_tail, push_u16, read_array30_at, read_bool_at,
    read_u16_at, read_u32_at, read_u64_at, read_u8_at, readonly_tail, sighash, sighash_spec,
    single_call, slot_metas,
};
use crate::pack::{bool_byte, le64, push_byte, push_bytes, push_u64};
use crate::pubkey::Pubkey;

verus! {

/// Input of the instruction, as its bytes hold it.
#[derive(Clone, Copy, Debug, PartialEq, Eq)]
pub struct InitiateDepositInputWrapper {
    pub deposit_amount: u64,
}

impl InitiateDepositInputWrapper {
    /// Decode the input from its first 8 bytes, each field little-endian; later bytes are ignored.
    pub fn decode(input: &[u8]) -> (r: Result<InitiateDepositInputWrapper, InputError>)
        ensures
            input@.len() < 8 ==> r == Err::<InitiateDepositInputWrapper, InputError>(InputError::TooShort),
            input@.len() >= 8 ==> (r matches Ok(v) && le64(v.deposit_amount) == input@.subrange(0, 8)),
    {
        let deposit_amount = read_u64_at(input, 0)?;
        Ok(InitiateDepositInputWrapper { deposit_amount })
    }
}

/// Input of the instruction, as its bytes hold it.
#[derive(Clone, Copy, Debug, PartialEq, Eq)]
pub struct InitiateWithdrawInputWrapper {
    pub share_amount: u64,
}

impl InitiateWithdrawInputWrapper {
    /// Decode the input from its first 8 bytes, each field little-endian; later bytes are ignored.
    pub fn decode(input: &[u8]) -> (r: Result<InitiateWithdrawInputWrapper, InputError>)
        ensures
            input@.len() < 8 ==> r == Err::<InitiateWithdrawInputWrapper, InputError>(InputError::TooShort),
            input@.len() >= 8 ==> (r matches Ok(v) && le64(v.share_amount) == input@.subrange(0, 8)),
    {
        let share_amount = read_u64_at(input, 0)?;
        Ok(InitiateWithdrawInputWrapper { share_amount })
    }
}

/// Input of the instruction, as its bytes hold it.
#[derive(Clone, Copy, Debug, PartialEq, Eq)]
pub struct CancelDepositInputWrapper {
}

impl CancelDepositInputWrapper {
    /// Decode the input: it has no fields, so any bytes will do.
    pub fn decode(input: &[u8]) -> (r: Result<CancelDepositInputWrapper, InputError>)
        ensures
            r == Ok::<CancelDepositInputWrapper, InputError>(CancelDepositInputWrapper {}),
    {
        Ok(CancelDepositInputWrapper {})
    }
}

/// Input of the instruction, as its bytes hold it.
#[derive(Clone, Copy, Debug, PartialEq, Eq)]
pub struct CancelWithdrawInputWrapper {
}

impl CancelWithdrawInputWrapper {
    /// Decode the input: it has no fields, so any bytes will do.
    pub fn decode(input: &[u8]) -> (r: Result<CancelWithdrawInputWrapper, InputError>)
        ensures
            r == Ok::<CancelWithdrawInputWrapper, InputError>(CancelWithdrawInputWrapper {}),
    {
        Ok(CancelWithdrawInputWrapper {})
    }
}

/// Input of the instruction, as its bytes hold it.
#[derive(Clone, Copy, Debug, PartialEq, Eq)]
pub struct FinalizeDepositInputWrapper {
}

impl FinalizeDepositInputWrapper {
    /// Decode the input: it has no fields, so any bytes will do.
    pub fn decode(input: &[u8]) -> (r: Result<FinalizeDepositInputWrapper, InputError>)
        ensures
            r == Ok::<FinalizeDepositInputWrapper, InputError>(FinalizeDepositInputWrapper {}),
    {
        Ok(FinalizeDepositInputWrapper {})
    }
}

/// Input of the instruction, as its bytes hold it.
#[derive(Clone, Copy, Debug, PartialEq, Eq)]
pub struct FinalizeWithdrawInputWrapper {
}

impl FinalizeWithdrawInputWrapper {
    /// Decode the input: it has no fields, so any bytes will do.
    pub fn decode(input: &[u8]) -> (r: Result<FinalizeWithdrawInputWrapper, InputError>)
        ensures
            r == Ok::<FinalizeWithdrawInputWrapper, InputError>(FinalizeWithdrawInputWrapper {}),
    {
        Ok(FinalizeWithdrawInputWrapper {})
    }
}

/// Output of the instruction: four amounts.
#[derive(Clone, Copy, Debug, PartialEq, Eq)]
pub struct InitiateDepositOutputWrapper {
    pub deposit_amount: u64,
    pub dummy_2: u64,
    pub dummy_3: u64,
    pub dummy_4: u64,
}

impl InitiateDepositOutputWrapper {
    /// The 32 output bytes: the four amounts, in order, little-endian.
    pub fn encode(&self) -> (r: Vec<u8>)
        ensures
            r@ == output_bytes(self.deposit_amount, self.dummy_2, self.dummy_3, self.dummy_4),
    {
        encode_output(self.deposit_amount, self.dummy_2, self.dummy_3, self.dummy_4)
    }
}

/// Output of the instruction: four amounts.
#[derive(Clone, Copy, Debug, PartialEq, Eq)]
pub struct InitiateWithdrawOutputWrapper {
    pub share_amount: u64,
    pub dummy_2: u64,
    pub dummy_3: u64,
    pub dummy_4: u64,
}

impl InitiateWithdrawOutputWrapper {
    /// The 32 output bytes: the four amounts, in order, little-endian.
    pub fn encode(&self) -> (r: Vec<u8>)
        ensures
            r@ == output_bytes(self.share_amount, self.dummy_2, self.dummy_3, self.dummy_4),
    {
        encode_output(self.share_amount, self.dummy_2, self.dummy_3, self.dummy_4)
    }
}

/// Output of the instruction: four amounts.
#[derive(Clone, Copy, Debug, PartialEq, Eq)]
pub struct CancelDepositOutputWrapper {
    pub withdraw_amount: u64,
    pub dummy_2: u64,
    pub dummy_3: u64,
    pub dummy_4: u64,
}

impl CancelDepositOutputWrapper {
    /// The 32 output bytes: the four amounts, in order, little-endian.
    pub fn encode(&self) -> (r: Vec<u8>)
        ensures
            r@ == output_bytes(self.withdraw_amount, self.dummy_2, self.dummy_3, self.dummy_4),
    {
        encode_output(self.withdraw_amount, self.dummy_2, self.dummy_3, self.dummy_4)
    }
}

/// Output of the instruction: four amounts.
#[derive(Clone, Copy, Debug, PartialEq, Eq)]
pub struct CancelWithdrawOutputWrapper {
    pub share_amount: u64,
    pub dummy_2: u64,
    pub dummy_3: u64,
    pub dummy_4: u64,
}

impl CancelWithdrawOutputWrapper {
    /// The 32 output bytes: the four amounts, in order, little-endian.
    pub fn encode(&self) -> (r: Vec<u8>)
        ensures
            r@ == output_bytes(self.share_amount, self.dummy_2, self.dummy_3, self.dummy_4),
    {
        encode_output(self.share_amount, self.dummy_2, self.dummy_3, self.dummy_4)
    }
}

/// Output of the instruction: four amounts.
#[derive(Clone, Copy, Debug, PartialEq, Eq)]
pub struct FinalizeDepositOutputWrapper {
    pub share_amount: u64,
    pub dummy_2: u64,
    pub dummy_3: u64,
    pub dummy_4: u64,
}

impl FinalizeDepositOutputWrapper {
    /// The 32 output bytes: the four amounts, in order, little-endian.
    pub fn encode(&self) -> (r: Vec<u8>)
        ensures
            r@ == output_bytes(self.share_amount, self.dummy_2, self.dummy_3, self.dummy_4),
    {
        encode_output(self.share_amount, self.dummy_2, self.dummy_3, self.dummy_4)
    }
}

/// Output of the instruction: four amounts.
#[derive(Clone, Copy, Debug, PartialEq, Eq)]
pub struct FinalizeWithdrawOutputWrapper {
    pub withdraw_amount: u64,
    pub dummy_2: u64,
    pub dummy_3: u64,
    pub dummy_4: u64,
}

impl FinalizeWithdrawOutputWrapper {
    /// The 32 output bytes: the four amounts, in order, little-endian.
    pub fn encode(&self) -> (r: Vec<u8>)
        ensures
            r@ == output_bytes(self.withdraw_amount, self.dummy_2, self.dummy_3, self.dummy_4),
    {
        encode_output(self.withdraw_amount, self.dummy_2, self.dummy_3, self.dummy_4)
    }
}

/// The four output amounts as a tuple, to be read by position.
pub type InitiateDepositOutputTuple = (u64, u64, u64, u64);

/// The four output amounts as a tuple, to be read by position.
pub type InitiateWithdrawOutputTuple = (u64, u64, u64, u64);

/// The four output amounts as a tuple, to be read by position.
pub type CancelDepositOutputTuple = (u64, u64, u64, u64);

/// The four output amounts as a tuple, to be read by position.
pub type CancelWithdrawOutputTuple = (u64, u64, u64, u64);

/// The four output amounts as a tuple, to be read by position.
pub type FinalizeDepositOutputTuple = (u64, u64, u64, u64);

/// The four output amounts as a tuple, to be read by position.
pub type FinalizeWithdrawOutputTuple = (u64, u64, u64, u64);

impl From<InitiateDepositOutputWrapper> for InitiateDepositOutputTuple {
    fn from(result: InitiateDepositOutputWrapper) -> Self {
        (result.deposit_amount, result.dummy_2, result.dummy_3, result.dummy_4)
    }
}

impl FromSpecImpl<InitiateDepositOutputWrapper> for InitiateDepositOutputTuple {
    open spec fn obeys_from_spec() -> bool {
        true
    }

    open spec fn from_spec(v: InitiateDepositOutputWrapper) -> Self {
        (v.deposit_amount, v.dummy_2, v.dummy_3, v.dummy_4)
    }
}

impl From<InitiateWithdrawOutputWrapper> for InitiateWithdrawOutputTuple {
    fn from(result: InitiateWithdrawOutputWrapper) -> Self {
        (result.share_amount, result.dummy_2, result.dummy_3, result.dummy_4)
    }
}

impl FromSpecImpl<InitiateWithdrawOutputWrapper> for InitiateWithdrawOutputTuple {
    open spec fn obeys_from_spec() -> bool {
        true
    }

    open spec fn from_spec(v: InitiateWithdrawOutputWrapper) -> Self {
        (v.share_amount, v.dummy_2, v.dummy_3, v.dummy_4)
    }
}

impl From<CancelDepositOutputWrapper> for CancelDepositOutputTuple {
    fn from(result: CancelDepositOutputWrapper) -> Self {
        (result.withdraw_amount, result.dummy_2, result.dummy_3, result.dummy_4)
    }
}

impl FromSpecImpl<CancelDepositOutputWrapper> for CancelDepositOutputTuple {
    open spec fn obeys_from_spec() -> bool {
        true
    }

    open spec fn from_spec(v: CancelDepositOutputWrapper) -> Self {
        (v.withdraw_amount, v.dummy_2, v.dummy_3, v.dummy_4)
    }
}

impl From<CancelWithdrawOutputWrapper> for CancelWithdrawOutputTuple {
    fn from(result: CancelWithdrawOutputWrapper) -> Self {
        (result.share_amount, result.dummy_2, result.dummy_3, result.dummy_4)
    }
}

impl FromSpecImpl<CancelWithdrawOutputWrapper> for CancelWithdrawOutputTuple {
    open spec fn obeys_from_spec() -> bool {
        true
    }

    open spec fn from_spec(v: CancelWithdrawOutputWrapper) -> Self {
        (v.share_amount, v.dummy_2, v.dummy_3, v.dummy_4)
    }
}

impl From<FinalizeDepositOutputWrapper> for FinalizeDepositOutputTuple {
    fn from(result: FinalizeDepositOutputWrapper) -> Self {
        (result.share_amount, result.dummy_2, result.dummy_3, result.dummy_4)
    }
}

impl FromSpecImpl<FinalizeDepositOutputWrapper> for FinalizeDepositOutputTuple {
    open spec fn obeys_from_spec() -> bool {
        true
    }

    open spec fn from_spec(v: FinalizeDepositOutputWrapper) -> Self {
        (v.share_amount, v.dummy_2, v.dummy_3, v.dummy_4)
    }
}

impl From<FinalizeWithdrawOutputWrapper> for FinalizeWithdrawOutputTuple {
    fn from(result: FinalizeWithdrawOutputWrapper) -> Self {
        (result.withdraw_amount, result.dummy_2, result.dummy_3, result.dummy_4)
    }
}

impl FromSpecImpl<FinalizeWithdrawOutputWrapper> for FinalizeWithdrawOutputTuple {
    open spec fn obeys_from_spec() -> bool {
        true
    }

    open spec fn from_spec(v: FinalizeWithdrawOutputWrapper) -> Self {
        (v.withdraw_amount, v.dummy_2, v.dummy_3, v.dummy_4)
    }
}

/// The account slots of `initiate_deposit`.
pub open spec fn initiate_deposit_slots() -> Seq<(usize, bool, bool)> {
    seq![
        (0usize, true, true),
        (0usize, true, false),
        (0usize, false, false),
        (1usize, false, true),
        (2usize, false, true),
        (3usize, false, false),
        (4usize, false, false),
        (5usize, false, false),
        (6usize, false, true),
        (7usize, false, false),
        (8usize, false, true),
        (9usize, false, true),
        (10usize, false, true),
        (11usize, false, true),
        (12usize, false, true),
        (13usize, false, true),
        (14usize, false, true),
        (15usize, false, false),
        (16usize, false, false),
    ]
}

/// Queue a deposit of `deposit_amount` into the volt: the `deposit`
/// instruction with the amount; the first account is given three times.
/// The deposit token account (9) is measured.
pub fn initiate_deposit(
    program_id: Pubkey,
    remaining_accounts: &[RemainingAccount],
    input: InitiateDepositInputWrapper,
) -> (r: Plan)
    requires
        remaining_accounts@.len() >= 17,
    ensures
        one_call(
            r,
            program_id,
            slot_metas(remaining_accounts@, initiate_deposit_slots()),
            sighash_spec("global"@, "deposit"@) + le64(input.deposit_amount),
            seq![
                OutputSlot::Measured(9usize, Direction::Change),
                OutputSlot::Zero,
                OutputSlot::Zero,
                OutputSlot::Zero,
            ],
        ),
{
    let slots: [(usize, bool, bool); 19] = [
            (0, true, true),
            (0, true, false),
            (0, false, false),
            (1, false, true),
            (2, false, true),
            (3, false, false),
            (4, false, false),
            (5, false, false),
            (6, false, true),
            (7, false, false),
            (8, false, true),
            (9, false, true),
            (10, false, true),
            (11, false, true),
            (12, false, true),
            (13, false, true),
            (14, false, true),
            (15, false, false),
            (16, false, false),
        ];
    assert(slots@ =~= initiate_deposit_slots());
    let accounts = fixed_metas(remaining_accounts, &slots);
    let mut data: Vec<u8> = Vec::new();
    let selector = sighash("global", "deposit");
    push_bytes(&mut data, selector.as_slice());
    assert(data@ =~= sighash_spec("global"@, "deposit"@));
    push_u64(&mut data, input.deposit_amount);
    let mut outputs: Vec<OutputSlot> = Vec::new();
    outputs.push(OutputSlot::Measured(9, Direction::Change));
    outputs.push(OutputSlot::Zero);
    outputs.push(OutputSlot::Zero);
    outputs.push(OutputSlot::Zero);
    assert(outputs@ =~= seq![
        OutputSlot::Measured(9usize, Direction::Change),
        OutputSlot::Zero,
        OutputSlot::Zero,
        OutputSlot::Zero,
    ]);
    single_call(Instruction { program_id, accounts, data }, outputs)
}

/// The account slots of `initiate_withdrawal`.
pub open spec fn initiate_withdrawal_slots() -> Seq<(usize, bool, bool)> {
    seq![
        (0usize, true, true),
        (0usize, true, false),
        (0usize, false, false),
        (1usize, false, true),
        (2usize, false, false),
        (3usize, false, false),
        (4usize, false, false),
        (5usize, false, false),
        (6usize, false, true),
        (7usize, false, true),
        (8usize, false, true),
        (9usize, false, true),
        (10usize, false, true),
        (11usize, false, true),
        (12usize, false, true),
        (13usize, false, true),
        (14usize, false, false),
        (15usize, false, false),
        (16usize, false, false),
    ]
}

/// Queue a withdrawal of `share_amount` volt shares: the `withdraw`
/// instruction with the amount. The share token account (8) is measured.
pub fn initiate_withdrawal(
    program_id: Pubkey,
    remaining_accounts: &[RemainingAccount],
    input: InitiateWithdrawInputWrapper,
) -> (r: Plan)
    requires
        remaining_accounts@.len() >= 17,
    ensures
        one_call(
            r,
            program_id,
            slot_metas(remaining_accounts@, initiate_withdrawal_slots()),
            sighash_spec("global"@, "withdraw"@) + le64(input.share_amount),
            seq![
                OutputSlot::Measured(8usize, Direction::Change),
                OutputSlot::Zero,
                OutputSlot::Zero,
                OutputSlot::Zero,
            ],
        ),
{
    let slots: [(usize, bool, bool); 19] = [
            (0, true, true),
            (0, true, false),
            (0, false, false),
            (1, false, true),
            (2, false, false),
            (3, false, false),
            (4, false, false),
            (5, false, false),
            (6, false, true),
            (7, false, true),
            (8, false, true),
            (9, false, true),
            (10, false, true),
            (11, false, true),
            (12, false, true),
            (13, false, true),
            (14, false, false),
            (15, false, false),
            (16, false, false),
        ];
    assert(slots@ =~= initiate_withdrawal_slots());
    let accounts = fixed_metas(remaining_accounts, &slots);
    let mut data: Vec<u8> = Vec::new();
    let selector = sighash("global", "withdraw");
    push_bytes(&mut data, selector.as_slice());
    assert(data@ =~= sighash_spec("global"@, "withdraw"@));
    push_u64(&mut data, input.share_amount);
    let mut outputs: Vec<OutputSlot> = Vec::new();
    outputs.push(OutputSlot::Measured(8, Direction::Change));
    outputs.push(OutputSlot::Zero);
    outputs.push(OutputSlot::Zero);
    outputs.push(OutputSlot::Zero);
    assert(outputs@ =~= seq![
        OutputSlot::Measured(8usize, Direction::Change),
        OutputSlot::Zero,
        OutputSlot::Zero,
        OutputSlot::Zero,
    ]);
    single_call(Instruction { program_id, accounts, data }, outputs)
}

/// The account slots of `cancel_withdrawal`.
pub open spec fn cancel_withdrawal_slots() -> Seq<(usize, bool, bool)> {
    seq![
        (0usize, true, true),
        (1usize, false, false),
        (2usize, false, false),
        (3usize, false, false),
        (4usize, false, false),
        (5usize, false, true),
        (6usize, false, true),
        (7usize, false, true),
        (8usize, false, true),
        (9usize, false, false),
        (10usize, false, false),
    ]
}

/// Cancel a pending withdrawal: the `cancel_pending_withdrawal`
/// instruction. The share token account (5) is measured.
pub fn cancel_withdrawal(
    program_id: Pubkey,
    remaining_accounts: &[RemainingAccount],
    _input: CancelWithdrawInputWrapper,
) -> (r: Plan)
    requires
        remaining_accounts@.len() >= 11,
    ensures
        one_call(
            r,
            program_id,
            slot_metas(remaining_accounts@, cancel_withdrawal_slots()),
            sighash_spec("global"@, "cancel_pending_withdrawal"@),
            seq![
                OutputSlot::Measured(5usize, Direction::Change),
                OutputSlot::Zero,
                OutputSlot::Zero,
                OutputSlot::Zero,
            ],
        ),
{
    let slots: [(usize, bool, bool); 11] = [
            (0, true, true),
            (1, false, false),
            (2, false, false),
            (3, false, false),
            (4, false, false),
            (5, false, true),
            (6, false, true),
            (7, false, true),
            (8, false, true),
            (9, false, false),
            (10, false, false),
        ];
    assert(slots@ =~= cancel_withdrawal_slots());
    let accounts = fixed_metas(remaining_accounts, &slots);
    let mut data: Vec<u8> = Vec::new();
    let selector = sighash("global", "cancel_pending_withdrawal");
    push_bytes(&mut data, selector.as_slice());
    assert(data@ =~= sighash_spec("global"@, "cancel_pending_withdrawal"@));
    let mut outputs: Vec<OutputSlot> = Vec::new();
    outputs.push(OutputSlot::Measured(5, Direction::Change));
    outputs.push(OutputSlot::Zero);
    outputs.push(OutputSlot::Zero);
    outputs.push(OutputSlot::Zero);
    assert(outputs@ =~= seq![
        OutputSlot::Measured(5usize, Direction::Change),
        OutputSlot::Zero,
        OutputSlot::Zero,
        OutputSlot::Zero,
    ]);
    single_call(Instruction { program_id, accounts, data }, outputs)
}

/// The account slots of `cancel_deposit`.
pub open spec fn cancel_deposit_slots() -> Seq<(usize, bool, bool)> {
    seq![
        (0usize, true, false),
        (1usize, false, false),
        (2usize, false, false),
        (3usize, false, false),
        (4usize, false, true),
        (5usize, false, true),
        (6usize, false, true),
        (7usize, false, true),
        (8usize, false, true),
        (9usize, false, false),
        (10usize, false, false),
    ]
}

/// Cancel a pending deposit: the `cancel_pending_deposit` instruction.
/// The deposit token account (4) is measured.
pub fn cancel_deposit(
    program_id: Pubkey,
    remaining_accounts: &[RemainingAccount],
    _input: CancelDepositInputWrapper,
) -> (r: Plan)
    requires
        remaining_accounts@.len() >= 11,
    ensures
        one_call(
            r,
            program_id,
            slot_metas(remaining_accounts@, cancel_deposit_slots()),
            sighash_spec("global"@, "cancel_pending_deposit"@),
            seq![
                OutputSlot::Measured(4usize, Direction::Change),
                OutputSlot::Zero,
                OutputSlot::Zero,
                OutputSlot::Zero,
            ],
        ),
{
    let slots: [(usize, bool, bool); 11] = [
            (0, true, false),
            (1, false, false),
            (2, false, false),
            (3, false, false),
            (4, false, true),
            (5, false, true),
            (6, false, true),
            (7, false, true),
            (8, false, true),
            (9, false, false),
            (10, false, false),
        ];
    assert(slots@ =~= cancel_deposit_slots());
    let accounts = fixed_metas(remaining_accounts, &slots);
    let mut data: Vec<u8> = Vec::new();
    let selector = sighash("global", "cancel_pending_deposit");
    push_bytes(&mut data, selector.as_slice());
    assert(data@ =~= sighash_spec("global"@, "cancel_pending_deposit"@));
    let mut outputs: Vec<OutputSlot> = Vec::new();
    outputs.push(OutputSlot::Measured(4, Direction::Change));
    outputs.push(OutputSlot::Zero);
    outputs.push(OutputSlot::Zero);
    outputs.push(OutputSlot::Zero);
    assert(outputs@ =~= seq![
        OutputSlot::Measured(4usize, Direction::Change),
        OutputSlot::Zero,
        OutputSlot::Zero,
        OutputSlot::Zero,
    ]);
    single_call(Instruction { program_id, accounts, data }, outputs)
}

/// The account slots of `finalize_withdrawal`.
pub open spec fn finalize_withdrawal_slots() -> Seq<(usize, bool, bool)> {
    seq![
        (0usize, true, true),
        (1usize, false, false),
        (2usize, false, false),
        (3usize, false, false),
        (4usize, false, false),
        (5usize, false, true),
        (6usize, false, true),
        (7usize, false, true),
        (8usize, false, true),
        (9usize, false, false),
        (10usize, false, false),
    ]
}

/// Claim a pending withdrawal: the `claim_pending_withdrawal`
/// instruction. The deposit token account (5) is measured.
pub fn finalize_withdrawal(
    program_id: Pubkey,
    remaining_accounts: &[RemainingAccount],
    _input: FinalizeWithdrawInputWrapper,
) -> (r: Plan)
    requires
        remaining_accounts@.len() >= 11,
    ensures
        one_call(
            r,
            program_id,
            slot_metas(remaining_accounts@, finalize_withdrawal_slots()),
            sighash_spec("global"@, "claim_pending_withdrawal"@),
            seq![
                OutputSlot::Measured(5usize, Direction::Change),
                OutputSlot::Zero,
                OutputSlot::Zero,
                OutputSlot::Zero,
            ],
        ),
{
    let slots: [(usize, bool, bool); 11] = [
            (0, true, true),
            (1, false, false),
            (2, false, false),
            (3, false, false),
            (4, false, false),
            (5, false, true),
            (6, false, true),
            (7, false, true),
            (8, false, true),
            (9, false, false),
            (10, false, false),
        ];
    assert(slots@ =~= finalize_withdrawal_slots());
    let accounts = fixed_metas(remaining_accounts, &slots);
    let mut data: Vec<u8> = Vec::new();
    let selector = sighash("global", "claim_pending_withdrawal");
    push_bytes(&mut data, selector.as_slice());
    assert(data@ =~= sighash_spec("global"@, "claim_pending_withdrawal"@));
    let mut outputs: Vec<OutputSlot> = Vec::new();
    outputs.push(OutputSlot::Measured(5, Direction::Change));
    outputs.push(OutputSlot::Zero);
    outputs.push(OutputSlot::Zero);
    outputs.push(OutputSlot::Zero);
    assert(outputs@ =~= seq![
        OutputSlot::Measured(5usize, Direction::Change),
        OutputSlot::Zero,
        OutputSlot::Zero,
        OutputSlot::Zero,
    ]);
    single_call(Instruction { program_id, accounts, data }, outputs)
}

/// The account slots of `finalize_deposit`.
pub open spec fn finalize_deposit_slots() -> Seq<(usize, bool, bool)> {
    seq![
        (0usize, true, true),
        (1usize, false, false),
        (2usize, false, false),
        (3usize, false, false),
        (4usize, false, true),
        (5usize, false, true),
        (6usize, false, true),
        (7usize, false, true),
        (8usize, false, false),
        (9usize, false, false),
    ]
}

/// Claim a pending deposit: the `claim_pending_deposit` instruction. The
/// share token account (4) is measured.
pub fn finalize_deposit(
    program_id: Pubkey,
    remaining_accounts: &[RemainingAccount],
    _input: FinalizeDepositInputWrapper,
) -> (r: Plan)
    requires
        remaining_accounts@.len() >= 10,
    ensures
        one_call(
            r,
            program_id,
            slot_metas(remaining_accounts@, finalize_deposit_slots()),
            sighash_spec("global"@, "claim_pending_deposit"@),
            seq![
                OutputSlot::Measured(4usize, Direction::Change),
                OutputSlot::Zero,
                OutputSlot::Zero,
                OutputSlot::Zero,
            ],
        ),
{
    let slots: [(usize, bool, bool); 10] = [
            (0, true, true),
            (1, false, false),
            (2, false, false),
            (3, false, false),
            (4, false, true),
            (5, false, true),
            (6, false, true),
            (7, false, true),
            (8, false, false),
            (9, false, false),
        ];
    assert(slots@ =~= finalize_deposit_slots());
    let accounts = fixed_metas(remaining_accounts, &slots);
    let mut data: Vec<u8> = Vec::new();
    let selector = sighash("global", "claim_pending_deposit");
    push_bytes(&mut data, selector.as_slice());
    assert(data@ =~= sighash_spec("global"@, "claim_pending_deposit"@));
    let mut outputs: Vec<OutputSlot> = Vec::new();
    outputs.push(OutputSlot::Measured(4, Direction::Change));
    outputs.push(OutputSlot::Zero);
    outputs.push(OutputSlot::Zero);
    outputs.push(OutputSlot::Zero);
    assert(outputs@ =~= seq![
        OutputSlot::Measured(4usize, Direction::Change),
        OutputSlot::Zero,
        OutputSlot::Zero,
        OutputSlot::Zero,
    ]);
    single_call(Instruction { program_id, accounts, data }, outputs)
}


} // verus!
