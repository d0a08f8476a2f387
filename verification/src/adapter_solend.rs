//! Adapter for Solend lending: what each of its instructions invokes and
//! how its outputs are read.
use vstd::prelude::*;
use vstd::std_specs::convert::FromSpecImpl;
use crate::adapter_common::{
    AccountInfos, AccountMeta, Direction, ErrorCode, InputError, Instruction, Invocation, OutputSlot,
    Plan, RemainingAccount, call_is, encode_output, fixed_metas, le16, le32, load_all_accounts,
    load_remaining_accounts, loaded_meta, loaded_metas, meta, one_call, output_bytes, outputs_are,
    invoke_all, picked_infos, plan_of, push_readonly_tail, push_u16, read_array30_at, read_bool_at,
    read_u16_at, read_u32_at, read_u64_at, read_u8_at, readonly_tail, sighash, sighash_spec,
    single_call, slot_metas,
};
use crate::pack::{bool_byte, le64, push_byte, push_bytes, push_u64};
use crate::pubkey::Pubkey;

verus! {

/// Deposit reserve liquidity and obligation collateral.
pub const SUPPLY_IX: u8 = 14;

/// Withdraw obligation collateral and redeem reserve collateral.
pub const UNSUPPLY_IX: u8 = 15;

/// Borrow obligation liquidity.
pub const BORROW_IX: u8 = 10;

/// Repay obligation liquidity.
pub const REPAY_IX: u8 = 11;

/// Input of the instruction, as its bytes hold it.
#[derive(Clone, Copy, Debug, PartialEq, Eq)]
pub struct SupplyInputWrapper {
    pub supply_amount: u64,
}

impl SupplyInputWrapper {
    /// Decode the input from its first 8 bytes, each field little-endian; later bytes are ignored.
    pub fn decode(input: &[u8]) -> (r: Result<SupplyInputWrapper, InputError>)
        ensures
            input@.len() < 8 ==> r == Err::<SupplyInputWrapper, InputError>(InputError::TooShort),
            input@.len() >= 8 ==> (r matches Ok(v) && le64(v.supply_amount) == input@.subrange(0, 8)),
    {
        let supply_amount = read_u64_at(input, 0)?;
        Ok(SupplyInputWrapper { supply_amount })
    }
}

/// Input of the instruction, as its bytes hold it.
#[derive(Clone, Copy, Debug, PartialEq, Eq)]
pub struct UnsupplyInputWrapper {
    pub reserved_amount: u64,
}

impl UnsupplyInputWrapper {
    /// Decode the input from its first 8 bytes, each field little-endian; later bytes are ignored.
    pub fn decode(input: &[u8]) -> (r: Result<UnsupplyInputWrapper, InputError>)
        ensures
            input@.len() < 8 ==> r == Err::<UnsupplyInputWrapper, InputError>(InputError::TooShort),
            input@.len() >= 8 ==> (r matches Ok(v) && le64(v.reserved_amount) == input@.subrange(0, 8)),
    {
        let reserved_amount = read_u64_at(input, 0)?;
        Ok(UnsupplyInputWrapper { reserved_amount })
    }
}

/// Input of the instruction, as its bytes hold it.
#[derive(Clone, Copy, Debug, PartialEq, Eq)]
pub struct BorrowInputWrapper {
    pub borrow_amount: u64,
}

impl BorrowInputWrapper {
    /// Decode the input from its first 8 bytes, each field little-endian; later bytes are ignored.
    pub fn decode(input: &[u8]) -> (r: Result<BorrowInputWrapper, InputError>)
        ensures
            input@.len() < 8 ==> r == Err::<BorrowInputWrapper, InputError>(InputError::TooShort),
            input@.len() >= 8 ==> (r matches Ok(v) && le64(v.borrow_amount) == input@.subrange(0, 8)),
    {
        let borrow_amount = read_u64_at(input, 0)?;
        Ok(BorrowInputWrapper { borrow_amount })
    }
}

/// Input of the instruction, as its bytes hold it.
#[derive(Clone, Copy, Debug, PartialEq, Eq)]
pub struct RepayInputWrapper {
    pub repay_amount: u64,
}

impl RepayInputWrapper {
    /// Decode the input from its first 8 bytes, each field little-endian; later bytes are ignored.
    pub fn decode(input: &[u8]) -> (r: Result<RepayInputWrapper, InputError>)
        ensures
            input@.len() < 8 ==> r == Err::<RepayInputWrapper, InputError>(InputError::TooShort),
            input@.len() >= 8 ==> (r matches Ok(v) && le64(v.repay_amount) == input@.subrange(0, 8)),
    {
        let repay_amount = read_u64_at(input, 0)?;
        Ok(RepayInputWrapper { repay_amount })
    }
}

/// Output of the instruction: four amounts.
#[derive(Clone, Copy, Debug, PartialEq, Eq)]
pub struct SupplyOutputWrapper {
    pub reserved_amount: u64,
    pub dummy_2: u64,
    pub dummy_3: u64,
    pub dummy_4: u64,
}

impl SupplyOutputWrapper {
    /// The 32 output bytes: the four amounts, in order, little-endian.
    pub fn encode(&self) -> (r: Vec<u8>)
        ensures
            r@ == output_bytes(self.reserved_amount, self.dummy_2, self.dummy_3, self.dummy_4),
    {
        encode_output(self.reserved_amount, self.dummy_2, self.dummy_3, self.dummy_4)
    }
}

/// Output of the instruction: four amounts.
#[derive(Clone, Copy, Debug, PartialEq, Eq)]
pub struct UnsupplyOutputWrapper {
    pub unsupply_amount: u64,
    pub dummy_2: u64,
    pub dummy_3: u64,
    pub dummy_4: u64,
}

impl UnsupplyOutputWrapper {
    /// The 32 output bytes: the four amounts, in order, little-endian.
    pub fn encode(&self) -> (r: Vec<u8>)
        ensures
            r@ == output_bytes(self.unsupply_amount, self.dummy_2, self.dummy_3, self.dummy_4),
    {
        encode_output(self.unsupply_amount, self.dummy_2, self.dummy_3, self.dummy_4)
    }
}

/// Output of the instruction: four amounts.
#[derive(Clone, Copy, Debug, PartialEq, Eq)]
pub struct BorrowOutputWrapper {
    pub borrow_amount: u64,
    pub dummy_2: u64,
    pub dummy_3: u64,
    pub dummy_4: u64,
}

impl BorrowOutputWrapper {
    /// The 32 output bytes: the four amounts, in order, little-endian.
    pub fn encode(&self) -> (r: Vec<u8>)
        ensures
            r@ == output_bytes(self.borrow_amount, self.dummy_2, self.dummy_3, self.dummy_4),
    {
        encode_output(self.borrow_amount, self.dummy_2, self.dummy_3, self.dummy_4)
    }
}

/// Output of the instruction: four amounts.
#[derive(Clone, Copy, Debug, PartialEq, Eq)]
pub struct RepayOutputWrapper {
    pub repay_amount: u64,
    pub dummy_2: u64,
    pub dummy_3: u64,
    pub dummy_4: u64,
}

impl RepayOutputWrapper {
    /// The 32 output bytes: the four amounts, in order, little-endian.
    pub fn encode(&self) -> (r: Vec<u8>)
        ensures
            r@ == output_bytes(self.repay_amount, self.dummy_2, self.dummy_3, self.dummy_4),
    {
        encode_output(self.repay_amount, self.dummy_2, self.dummy_3, self.dummy_4)
    }
}

/// The four output amounts as a tuple, to be read by position.
pub type SupplyOutputTuple = (u64, u64, u64, u64);

/// The four output amounts as a tuple, to be read by position.
pub type UnsupplyOutputTuple = (u64, u64, u64, u64);

/// The four output amounts as a tuple, to be read by position.
pub type BorrowOutputTuple = (u64, u64, u64, u64);

/// The four output amounts as a tuple, to be read by position.
pub type RepayOutputTuple = (u64, u64, u64, u64);

impl From<SupplyOutputWrapper> for SupplyOutputTuple {
    fn from(result: SupplyOutputWrapper) -> Self {
        (result.reserved_amount, result.dummy_2, result.dummy_3, result.dummy_4)
    }
}

impl FromSpecImpl<SupplyOutputWrapper> for SupplyOutputTuple {
    open spec fn obeys_from_spec() -> bool {
        true
    }

    open spec fn from_spec(v: SupplyOutputWrapper) -> Self {
        (v.reserved_amount, v.dummy_2, v.dummy_3, v.dummy_4)
    }
}

impl From<UnsupplyOutputWrapper> for UnsupplyOutputTuple {
    fn from(result: UnsupplyOutputWrapper) -> Self {
        (result.unsupply_amount, result.dummy_2, result.dummy_3, result.dummy_4)
    }
}

impl FromSpecImpl<UnsupplyOutputWrapper> for UnsupplyOutputTuple {
    open spec fn obeys_from_spec() -> bool {
        true
    }

    open spec fn from_spec(v: UnsupplyOutputWrapper) -> Self {
        (v.unsupply_amount, v.dummy_2, v.dummy_3, v.dummy_4)
    }
}

impl From<BorrowOutputWrapper> for BorrowOutputTuple {
    fn from(result: BorrowOutputWrapper) -> Self {
        (result.borrow_amount, result.dummy_2, result.dummy_3, result.dummy_4)
    }
}

impl FromSpecImpl<BorrowOutputWrapper> for BorrowOutputTuple {
    open spec fn obeys_from_spec() -> bool {
        true
    }

    open spec fn from_spec(v: BorrowOutputWrapper) -> Self {
        (v.borrow_amount, v.dummy_2, v.dummy_3, v.dummy_4)
    }
}

impl From<RepayOutputWrapper> for RepayOutputTuple {
    fn from(result: RepayOutputWrapper) -> Self {
        (result.repay_amount, result.dummy_2, result.dummy_3, result.dummy_4)
    }
}

impl FromSpecImpl<RepayOutputWrapper> for RepayOutputTuple {
    open spec fn obeys_from_spec() -> bool {
        true
    }

    open spec fn from_spec(v: RepayOutputWrapper) -> Self {
        (v.repay_amount, v.dummy_2, v.dummy_3, v.dummy_4)
    }
}

/// The account slots of `supply`.
pub open spec fn supply_slots() -> Seq<(usize, bool, bool)> {
    seq![
        (0usize, false, true),
        (1usize, false, true),
        (2usize, false, true),
        (3usize, false, true),
        (4usize, false, true),
        (5usize, false, true),
        (6usize, false, false),
        (7usize, false, true),
        (8usize, false, true),
        (9usize, true, false),
        (10usize, false, false),
        (11usize, false, false),
        (12usize, true, false),
        (13usize, false, false),
        (14usize, false, false),
    ]
}

/// Deposit `supply_amount` liquidity and its collateral in one step:
/// instruction 14 with the amount, on the first fifteen accounts. The gain
/// of the collateral token account (7) is measured.
pub fn supply(
    program_id: Pubkey,
    remaining_accounts: &[RemainingAccount],
    input: SupplyInputWrapper,
) -> (r: Plan)
    requires
        remaining_accounts@.len() >= 15,
    ensures
        one_call(
            r,
            program_id,
            slot_metas(remaining_accounts@, supply_slots()),
            seq![SUPPLY_IX] + le64(input.supply_amount),
            seq![
                OutputSlot::Measured(7usize, Direction::Gain),
                OutputSlot::Zero,
                OutputSlot::Zero,
                OutputSlot::Zero,
            ],
        ),
{
    let slots: [(usize, bool, bool); 15] = [
            (0, false, true),
            (1, false, true),
            (2, false, true),
            (3, false, true),
            (4, false, true),
            (5, false, true),
            (6, false, false),
            (7, false, true),
            (8, false, true),
            (9, true, false),
            (10, false, false),
            (11, false, false),
            (12, true, false),
            (13, false, false),
            (14, false, false),
        ];
    assert(slots@ =~= supply_slots());
    let accounts = fixed_metas(remaining_accounts, &slots);
    let mut data: Vec<u8> = Vec::new();
    push_byte(&mut data, SUPPLY_IX);
    assert(data@ =~= seq![SUPPLY_IX]);
    push_u64(&mut data, input.supply_amount);
    let mut outputs: Vec<OutputSlot> = Vec::new();
    outputs.push(OutputSlot::Measured(7, Direction::Gain));
    outputs.push(OutputSlot::Zero);
    outputs.push(OutputSlot::Zero);
    outputs.push(OutputSlot::Zero);
    assert(outputs@ =~= seq![
        OutputSlot::Measured(7usize, Direction::Gain),
        OutputSlot::Zero,
        OutputSlot::Zero,
        OutputSlot::Zero,
    ]);
    single_call(Instruction { program_id, accounts, data }, outputs)
}

/// The account slots of `unsupply`.
pub open spec fn unsupply_slots() -> Seq<(usize, bool, bool)> {
    seq![
        (0usize, false, true),
        (1usize, false, true),
        (2usize, false, true),
        (3usize, false, true),
        (4usize, false, false),
        (5usize, false, false),
        (6usize, false, true),
        (7usize, false, true),
        (8usize, false, true),
        (9usize, true, false),
        (10usize, true, false),
        (11usize, false, false),
        (12usize, false, false),
    ]
}

/// Withdraw and redeem `reserved_amount` collateral in one step:
/// instruction 15 with the amount, on the first thirteen accounts. The gain
/// of the liquidity token account (6) is measured.
pub fn unsupply(
    program_id: Pubkey,
    remaining_accounts: &[RemainingAccount],
    input: UnsupplyInputWrapper,
) -> (r: Plan)
    requires
        remaining_accounts@.len() >= 13,
    ensures
        one_call(
            r,
            program_id,
            slot_metas(remaining_accounts@, unsupply_slots()),
            seq![UNSUPPLY_IX] + le64(input.reserved_amount),
            seq![
                OutputSlot::Measured(6usize, Direction::Gain),
                OutputSlot::Zero,
                OutputSlot::Zero,
                OutputSlot::Zero,
            ],
        ),
{
    let slots: [(usize, bool, bool); 13] = [
            (0, false, true),
            (1, false, true),
            (2, false, true),
            (3, false, true),
            (4, false, false),
            (5, false, false),
            (6, false, true),
            (7, false, true),
            (8, false, true),
            (9, true, false),
            (10, true, false),
            (11, false, false),
            (12, false, false),
        ];
    assert(slots@ =~= unsupply_slots());
    let accounts = fixed_metas(remaining_accounts, &slots);
    let mut data: Vec<u8> = Vec::new();
    push_byte(&mut data, UNSUPPLY_IX);
    assert(data@ =~= seq![UNSUPPLY_IX]);
    push_u64(&mut data, input.reserved_amount);
    let mut outputs: Vec<OutputSlot> = Vec::new();
    outputs.push(OutputSlot::Measured(6, Direction::Gain));
    outputs.push(OutputSlot::Zero);
    outputs.push(OutputSlot::Zero);
    outputs.push(OutputSlot::Zero);
    assert(outputs@ =~= seq![
        OutputSlot::Measured(6usize, Direction::Gain),
        OutputSlot::Zero,
        OutputSlot::Zero,
        OutputSlot::Zero,
    ]);
    single_call(Instruction { program_id, accounts, data }, outputs)
}

/// The account slots of `borrow`.
pub open spec fn borrow_slots() -> Seq<(usize, bool, bool)> {
    seq![
        (0usize, false, true),
        (1usize, false, true),
        (2usize, false, true),
        (3usize, false, true),
        (4usize, false, true),
        (5usize, false, false),
        (6usize, false, false),
        (7usize, true, false),
        (8usize, false, false),
        (9usize, false, false),
    ]
}

/// Borrow `borrow_amount` liquidity: instruction 10 with the amount, on the
/// first ten accounts. The gain of the destination token account (1) is
/// measured.
pub fn borrow(
    program_id: Pubkey,
    remaining_accounts: &[RemainingAccount],
    input: BorrowInputWrapper,
) -> (r: Plan)
    requires
        remaining_accounts@.len() >= 10,
    ensures
        one_call(
            r,
            program_id,
            slot_metas(remaining_accounts@, borrow_slots()),
            seq![BORROW_IX] + le64(input.borrow_amount),
            seq![
                OutputSlot::Measured(1usize, Direction::Gain),
                OutputSlot::Zero,
                OutputSlot::Zero,
                OutputSlot::Zero,
            ],
        ),
{
    let slots: [(usize, bool, bool); 10] = [
            (0, false, true),
            (1, false, true),
            (2, false, true),
            (3, false, true),
            (4, false, true),
            (5, false, false),
            (6, false, false),
            (7, true, false),
            (8, false, false),
            (9, false, false),
        ];
    assert(slots@ =~= borrow_slots());
    let accounts = fixed_metas(remaining_accounts, &slots);
    let mut data: Vec<u8> = Vec::new();
    push_byte(&mut data, BORROW_IX);
    assert(data@ =~= seq![BORROW_IX]);
    push_u64(&mut data, input.borrow_amount);
    let mut outputs: Vec<OutputSlot> = Vec::new();
    outputs.push(OutputSlot::Measured(1, Direction::Gain));
    outputs.push(OutputSlot::Zero);
    outputs.push(OutputSlot::Zero);
    outputs.push(OutputSlot::Zero);
    assert(outputs@ =~= seq![
        OutputSlot::Measured(1usize, Direction::Gain),
        OutputSlot::Zero,
        OutputSlot::Zero,
        OutputSlot::Zero,
    ]);
    single_call(Instruction { program_id, accounts, data }, outputs)
}

/// The account slots of `repay`.
pub open spec fn repay_slots() -> Seq<(usize, bool, bool)> {
    seq![
        (0usize, false, true),
        (1usize, false, true),
        (2usize, false, true),
        (3usize, false, true),
        (4usize, false, false),
        (5usize, true, false),
        (6usize, false, false),
        (7usize, false, false),
    ]
}

/// Repay `repay_amount` liquidity: instruction 11 with the amount, on the
/// first eight accounts. The loss of the source token account (0) is
/// measured.
pub fn repay(
    program_id: Pubkey,
    remaining_accounts: &[RemainingAccount],
    input: RepayInputWrapper,
) -> (r: Plan)
    requires
        remaining_accounts@.len() >= 8,
    ensures
        one_call(
            r,
            program_id,
            slot_metas(remaining_accounts@, repay_slots()),
            seq![REPAY_IX] + le64(input.repay_amount),
            seq![
                OutputSlot::Measured(0usize, Direction::Loss),
                OutputSlot::Zero,
                OutputSlot::Zero,
                OutputSlot::Zero,
            ],
        ),
{
    let slots: [(usize, bool, bool); 8] = [
            (0, false, true),
            (1, false, true),
            (2, false, true),
            (3, false, true),
            (4, false, false),
            (5, true, false),
            (6, false, false),
            (7, false, false),
        ];
    assert(slots@ =~= repay_slots());
    let accounts = fixed_metas(remaining_accounts, &slots);
    let mut data: Vec<u8> = Vec::new();
    push_byte(&mut data, REPAY_IX);
    assert(data@ =~= seq![REPAY_IX]);
    push_u64(&mut data, input.repay_amount);
    let mut outputs: Vec<OutputSlot> = Vec::new();
    outputs.push(OutputSlot::Measured(0, Direction::Loss));
    outputs.push(OutputSlot::Zero);
    outputs.push(OutputSlot::Zero);
    outputs.push(OutputSlot::Zero);
    assert(outputs@ =~= seq![
        OutputSlot::Measured(0usize, Direction::Loss),
        OutputSlot::Zero,
        OutputSlot::Zero,
        OutputSlot::Zero,
    ]);
    single_call(Instruction { program_id, accounts, data }, outputs)
}


} // verus!
