//! Adapter for Lifinity pools: what each of its instructions invokes and
//! how its outputs are read.
use vstd::prelude::*;
use vstd::std_specs::convert::FromSpecImpl;
use crate::adapter_common::{
    AccountInfos, AccountMeta, Direction, ErrorCode, InputError, Instruction, Invocation, OutputSlot,
    Plan, RemainingAccount, call_is, encode_output, fixed_metas, le16, le32, load_all_accounts,
    load_remaining_accounts, loaded_meta, loaded_metas, meta, one_call, output_bytes, outputs_are,
    invoke_all, picked_infos, plan_of, push_readonly_tail, push_u16, read_array30_at, read_bool_at,
    read_u16_at, read_u32_at, read_u64_at, read_u8_at, readonly_tail, sighash, sighash_spec,
    single_call, slot_metas,
};
use crate::pack::{bool_byte, le64, push_byte, push_bytes, push_u64};
use crate::pubkey::Pubkey;

verus! {

/// Input of the instruction, as its bytes hold it.
#[derive(Clone, Copy, Debug, PartialEq, Eq)]
pub struct SwapInputWrapper {
    pub swap_in_amount: u64,
    pub swap_min_out_amount: u64,
}

impl SwapInputWrapper {
    /// Decode the input from its first 16 bytes, each field little-endian; later bytes are ignored.
    pub fn decode(input: &[u8]) -> (r: Result<SwapInputWrapper, InputError>)
        ensures
            input@.len() < 16 ==> r == Err::<SwapInputWrapper, InputError>(InputError::TooShort),
            input@.len() >= 16 ==> (r matches Ok(v) && le64(v.swap_in_amount) == input@.subrange(0, 8) && le64(v.swap_min_out_amount) == input@.subrange(8, 16)),
    {
        let swap_in_amount = read_u64_at(input, 0)?;
        let swap_min_out_amount = read_u64_at(input, 8)?;
        Ok(SwapInputWrapper { swap_in_amount, swap_min_out_amount })
    }
}

/// Input of the instruction, as its bytes hold it.
#[derive(Clone, Copy, Debug, PartialEq, Eq)]
pub struct AddLiquidityInputWrapper {
    pub token_in_amount: u64,
    pub pool_direction: u8,
}

impl AddLiquidityInputWrapper {
    /// Decode the input from its first 9 bytes, each field little-endian; later bytes are ignored.
    pub fn decode(input: &[u8]) -> (r: Result<AddLiquidityInputWrapper, InputError>)
        ensures
            input@.len() < 9 ==> r == Err::<AddLiquidityInputWrapper, InputError>(InputError::TooShort),
            input@.len() >= 9 ==> (r matches Ok(v) && le64(v.token_in_amount) == input@.subrange(0, 8) && v.pool_direction == input@[8]),
    {
        let token_in_amount = read_u64_at(input, 0)?;
        let pool_direction = read_u8_at(input, 8)?;
        Ok(AddLiquidityInputWrapper { token_in_amount, pool_direction })
    }
}

/// Input of the instruction, as its bytes hold it.
#[derive(Clone, Copy, Debug, PartialEq, Eq)]
pub struct RemoveLiquidityInputWrapper {
    pub lp_amount: u64,
    pub pool_direction: u8,
}

impl RemoveLiquidityInputWrapper {
    /// Decode the input from its first 9 bytes, each field little-endian; later bytes are ignored.
    pub fn decode(input: &[u8]) -> (r: Result<RemoveLiquidityInputWrapper, InputError>)
        ensures
            input@.len() < 9 ==> r == Err::<RemoveLiquidityInputWrapper, InputError>(InputError::TooShort),
            input@.len() >= 9 ==> (r matches Ok(v) && le64(v.lp_amount) == input@.subrange(0, 8) && v.pool_direction == input@[8]),
    {
        let lp_amount = read_u64_at(input, 0)?;
        let pool_direction = read_u8_at(input, 8)?;
        Ok(RemoveLiquidityInputWrapper { lp_amount, pool_direction })
    }
}

/// Output of the instruction: four amounts.
#[derive(Clone, Copy, Debug, PartialEq, Eq)]
pub struct SwapOutputWrapper {
    pub swap_out_amount: u64,
    pub dummy_2: u64,
    pub dummy_3: u64,
    pub dummy_4: u64,
}

impl SwapOutputWrapper {
    /// The 32 output bytes: the four amounts, in order, little-endian.
    pub fn encode(&self) -> (r: Vec<u8>)
        ensures
            r@ == output_bytes(self.swap_out_amount, self.dummy_2, self.dummy_3, self.dummy_4),
    {
        encode_output(self.swap_out_amount, self.dummy_2, self.dummy_3, self.dummy_4)
    }
}

/// Output of the instruction: four amounts.
#[derive(Clone, Copy, Debug, PartialEq, Eq)]
pub struct AddLiquidityOutputWrapper {
    pub lp_amount: u64,
    pub dummy_2: u64,
    pub dummy_3: u64,
    pub dummy_4: u64,
}

impl AddLiquidityOutputWrapper {
    /// The 32 output bytes: the four amounts, in order, little-endian.
    pub fn encode(&self) -> (r: Vec<u8>)
        ensures
            r@ == output_bytes(self.lp_amount, self.dummy_2, self.dummy_3, self.dummy_4),
    {
        encode_output(self.lp_amount, self.dummy_2, self.dummy_3, self.dummy_4)
    }
}

/// Output of the instruction: four amounts.
#[derive(Clone, Copy, Debug, PartialEq, Eq)]
pub struct RemoveLiquidityOutputWrapper {
    pub token_a_amount: u64,
    pub token_b_amount: u64,
    pub lp_amount: u64,
    pub dummy_4: u64,
}

impl RemoveLiquidityOutputWrapper {
    /// The 32 output bytes: the four amounts, in order, little-endian.
    pub fn encode(&self) -> (r: Vec<u8>)
        ensures
            r@ == output_bytes(self.token_a_amount, self.token_b_amount, self.lp_amount, self.dummy_4),
    {
        encode_output(self.token_a_amount, self.token_b_amount, self.lp_amount, self.dummy_4)
    }
}

/// The four output amounts as a tuple, to be read by position.
pub type SwapOutputTuple = (u64, u64, u64, u64);

/// The four output amounts as a tuple, to be read by position.
pub type AddLiquidityOutputTuple = (u64, u64, u64, u64);

/// The four output amounts as a tuple, to be read by position.
pub type RemoveLiquidityOutputTuple = (u64, u64, u64, u64);

impl From<SwapOutputWrapper> for SwapOutputTuple {
    fn from(result: SwapOutputWrapper) -> Self {
        (result.swap_out_amount, result.dummy_2, result.dummy_3, result.dummy_4)
    }
}

impl FromSpecImpl<SwapOutputWrapper> for SwapOutputTuple {
    open spec fn obeys_from_spec() -> bool {
        true
    }

    open spec fn from_spec(v: SwapOutputWrapper) -> Self {
        (v.swap_out_amount, v.dummy_2, v.dummy_3, v.dummy_4)
    }
}

impl From<AddLiquidityOutputWrapper> for AddLiquidityOutputTuple {
    fn from(result: AddLiquidityOutputWrapper) -> Self {
        (result.lp_amount, result.dummy_2, result.dummy_3, result.dummy_4)
    }
}

impl FromSpecImpl<AddLiquidityOutputWrapper> for AddLiquidityOutputTuple {
    open spec fn obeys_from_spec() -> bool {
        true
    }

    open spec fn from_spec(v: AddLiquidityOutputWrapper) -> Self {
        (v.lp_amount, v.dummy_2, v.dummy_3, v.dummy_4)
    }
}

impl From<RemoveLiquidityOutputWrapper> for RemoveLiquidityOutputTuple {
    fn from(result: RemoveLiquidityOutputWrapper) -> Self {
        (result.token_a_amount, result.token_b_amount, result.lp_amount, result.dummy_4)
    }
}

impl FromSpecImpl<RemoveLiquidityOutputWrapper> for RemoveLiquidityOutputTuple {
    open spec fn obeys_from_spec() -> bool {
        true
    }

    open spec fn from_spec(v: RemoveLiquidityOutputWrapper) -> Self {
        (v.token_a_amount, v.token_b_amount, v.lp_amount, v.dummy_4)
    }
}

/// The account slots of `swap`.
pub open spec fn swap_slots() -> Seq<(usize, bool, bool)> {
    seq![
        (0usize, false, false),
        (1usize, false, false),
        (2usize, true, false),
        (3usize, false, true),
        (4usize, false, true),
        (5usize, false, true),
        (6usize, false, true),
        (7usize, false, true),
        (8usize, false, true),
        (9usize, false, false),
        (10usize, false, false),
        (11usize, false, false),
        (12usize, false, true),
    ]
}

/// Swap `swap_in_amount` for at least `swap_min_out_amount`: the `swap`
/// instruction with both amounts. The gain of the destination token account
/// (4) is measured.
pub fn swap(
    program_id: Pubkey,
    remaining_accounts: &[RemainingAccount],
    input: SwapInputWrapper,
) -> (r: Plan)
    requires
        remaining_accounts@.len() >= 13,
    ensures
        one_call(
            r,
            program_id,
            slot_metas(remaining_accounts@, swap_slots()),
            sighash_spec("global"@, "swap"@) + le64(input.swap_in_amount) + le64(input.swap_min_out_amount),
            seq![
                OutputSlot::Measured(4usize, Direction::Gain),
                OutputSlot::Zero,
                OutputSlot::Zero,
                OutputSlot::Zero,
            ],
        ),
{
    let slots: [(usize, bool, bool); 13] = [
            (0, false, false),
            (1, false, false),
            (2, true, false),
            (3, false, true),
            (4, false, true),
            (5, false, true),
            (6, false, true),
            (7, false, true),
            (8, false, true),
            (9, false, false),
            (10, false, false),
            (11, false, false),
            (12, false, true),
        ];
    assert(slots@ =~= swap_slots());
    let accounts = fixed_metas(remaining_accounts, &slots);
    let mut data: Vec<u8> = Vec::new();
    let selector = sighash("global", "swap");
    push_bytes(&mut data, selector.as_slice());
    assert(data@ =~= sighash_spec("global"@, "swap"@));
    push_u64(&mut data, input.swap_in_amount);
    push_u64(&mut data, input.swap_min_out_amount);
    let mut outputs: Vec<OutputSlot> = Vec::new();
    outputs.push(OutputSlot::Measured(4, Direction::Gain));
    outputs.push(OutputSlot::Zero);
    outputs.push(OutputSlot::Zero);
    outputs.push(OutputSlot::Zero);
    assert(outputs@ =~= seq![
        OutputSlot::Measured(4usize, Direction::Gain),
        OutputSlot::Zero,
        OutputSlot::Zero,
        OutputSlot::Zero,
    ]);
    single_call(Instruction { program_id, accounts, data }, outputs)
}

/// Which side of a pool a single-token deposit comes in on.
#[derive(Clone, Copy, Debug, PartialEq, Eq)]
pub enum PoolDirectionP {
    /// The amount is of the pc token; the coin amount is priced from it
    Obverse,
    /// The amount is of the coin token; the pc amount is priced from it
    Reverse,
}

/// The direction a byte names: 0 is obverse, 1 reverse, any other is
/// `UnsupportedPoolDirection`.
pub fn pool_direction(direction: u8) -> (r: Result<PoolDirectionP, ErrorCode>)
    ensures
        direction == 0 ==> r == Ok::<PoolDirectionP, ErrorCode>(PoolDirectionP::Obverse),
        direction == 1 ==> r == Ok::<PoolDirectionP, ErrorCode>(PoolDirectionP::Reverse),
        direction > 1 ==> r == Err::<PoolDirectionP, ErrorCode>(ErrorCode::UnsupportedPoolDirection),
{
    match direction {
        0 => Ok(PoolDirectionP::Obverse),
        1 => Ok(PoolDirectionP::Reverse),
        _ => Err(ErrorCode::UnsupportedPoolDirection),
    }
}

/// The account slots of `add_liquidity`.
pub open spec fn add_liquidity_slots() -> Seq<(usize, bool, bool)> {
    seq![
        (0usize, false, true),
        (1usize, false, false),
        (2usize, true, false),
        (3usize, false, true),
        (4usize, false, true),
        (5usize, false, true),
        (6usize, false, true),
        (7usize, false, true),
        (8usize, false, true),
        (9usize, false, false),
        (10usize, false, false),
    ]
}

/// The coin and pc amounts of a deposit of `token_in_amount` in `direction`,
/// the other side priced at `priced_amount`.
pub open spec fn deposit_amounts(direction: u8, token_in_amount: u64, priced_amount: u64) -> (u64, u64) {
    if direction == 0 {
        (priced_amount, token_in_amount)
    } else {
        (token_in_amount, priced_amount)
    }
}

/// What `add_liquidity` gives: for a supported direction the one
/// `deposit_all_token_types` call with the minimum, the coin amount and the
/// pc amount, the gain of the pool token account (8) measured; for any other
/// direction `UnsupportedPoolDirection`.
pub open spec fn add_liquidity_outcome(
    program_id: Pubkey,
    remaining_accounts: Seq<RemainingAccount>,
    input: AddLiquidityInputWrapper,
    priced_amount: u64,
    minimal_lp_receive: u64,
    r: Result<Plan, ErrorCode>,
) -> bool {
    &&& input.pool_direction > 1 ==> r == Err::<Plan, ErrorCode>(ErrorCode::UnsupportedPoolDirection)
    &&& input.pool_direction <= 1 ==> (r matches Ok(p) && one_call(
        p,
        program_id,
        slot_metas(remaining_accounts, add_liquidity_slots()),
        sighash_spec("global"@, "deposit_all_token_types"@) + le64(minimal_lp_receive) + le64(
            deposit_amounts(input.pool_direction, input.token_in_amount, priced_amount).0,
        ) + le64(deposit_amounts(input.pool_direction, input.token_in_amount, priced_amount).1),
        seq![
            OutputSlot::Measured(8usize, Direction::Gain),
            OutputSlot::Zero,
            OutputSlot::Zero,
            OutputSlot::Zero,
        ],
    ))
}

/// Where a deposit's amounts go in its instruction data, which ends with
/// the minimum pool tokens, then the coin amount, then the pc amount, eight
/// little-endian bytes each: direction 0 deposits the input amount as pc and
/// the priced amount as coin, direction 1 the input amount as coin and the
/// priced amount as pc. So the two directions put the input amount in
/// different places.
pub proof fn lemma_add_liquidity_amount_places(
    program_id: Pubkey,
    remaining_accounts: Seq<RemainingAccount>,
    input: AddLiquidityInputWrapper,
    priced_amount: u64,
    minimal_lp_receive: u64,
    r: Result<Plan, ErrorCode>,
)
    requires
        input.pool_direction <= 1,
        add_liquidity_outcome(program_id, remaining_accounts, input, priced_amount, minimal_lp_receive, r),
    ensures
        r matches Ok(p) && ({
            let data = p.invocations@[0].instruction.data@;
            let n = data.len() as int;
            &&& n >= 24
            &&& data.subrange(0, n - 24) == sighash_spec("global"@, "deposit_all_token_types"@)
            &&& data.subrange(n - 24, n - 16) == le64(minimal_lp_receive)
            &&& input.pool_direction == 0 ==> data.subrange(n - 16, n - 8) == le64(priced_amount)
                && data.subrange(n - 8, n) == le64(input.token_in_amount)
            &&& input.pool_direction == 1 ==> data.subrange(n - 16, n - 8) == le64(
                input.token_in_amount,
            ) && data.subrange(n - 8, n) == le64(priced_amount)
        }),
{
    crate::pack::lemma_le_roundtrips();
    let p = r->Ok_0;
    let data = p.invocations@[0].instruction.data@;
    let sel = sighash_spec("global"@, "deposit_all_token_types"@);
    let (coin, pc) = deposit_amounts(input.pool_direction, input.token_in_amount, priced_amount);
    let a = le64(minimal_lp_receive);
    let b = le64(coin);
    let c = le64(pc);
    assert(data == sel + a + b + c);
    let n = data.len() as int;
    assert(n == sel.len() + 24);
    assert(data.subrange(0, n - 24) =~= sel);
    assert(data.subrange(n - 24, n - 16) =~= a);
    assert(data.subrange(n - 16, n - 8) =~= b);
    assert(data.subrange(n - 8, n) =~= c);
}

/// Add `token_in_amount` of one token to the pool, the other token's amount
/// `priced_amount` priced from it and at least `minimal_lp_receive` pool
/// tokens expected: the `deposit_all_token_types` instruction with the
/// minimum, the coin amount and the pc amount. Direction 0 deposits the
/// amount as pc, 1 as coin; any other is `UnsupportedPoolDirection`. The gain
/// of the pool token account (8) is measured.
pub fn add_liquidity(
    program_id: Pubkey,
    remaining_accounts: &[RemainingAccount],
    input: AddLiquidityInputWrapper,
    priced_amount: u64,
    minimal_lp_receive: u64,
) -> (r: Result<Plan, ErrorCode>)
    requires
        remaining_accounts@.len() >= 11,
    ensures
        add_liquidity_outcome(
            program_id,
            remaining_accounts@,
            input,
            priced_amount,
            minimal_lp_receive,
            r,
        ),
{
    let direction = pool_direction(input.pool_direction)?;
    let (coin_amount, pc_amount): (u64, u64) = match direction {
        PoolDirectionP::Obverse => (priced_amount, input.token_in_amount),
        PoolDirectionP::Reverse => (input.token_in_amount, priced_amount),
    };
    let slots: [(usize, bool, bool); 11] = [
        (0, false, true),
        (1, false, false),
        (2, true, false),
        (3, false, true),
        (4, false, true),
        (5, false, true),
        (6, false, true),
        (7, false, true),
        (8, false, true),
        (9, false, false),
        (10, false, false),
    ];
    assert(slots@ =~= add_liquidity_slots());
    let accounts = fixed_metas(remaining_accounts, &slots);
    let mut data: Vec<u8> = Vec::new();
    let selector = sighash("global", "deposit_all_token_types");
    push_bytes(&mut data, selector.as_slice());
    assert(data@ =~= sighash_spec("global"@, "deposit_all_token_types"@));
    push_u64(&mut data, minimal_lp_receive);
    push_u64(&mut data, coin_amount);
    push_u64(&mut data, pc_amount);
    let outputs = vec![
        OutputSlot::Measured(8, Direction::Gain),
        OutputSlot::Zero,
        OutputSlot::Zero,
        OutputSlot::Zero,
    ];
    Ok(single_call(Instruction { program_id, accounts, data }, outputs))
}

/// The account slots of `remove_liquidity`.
pub open spec fn remove_liquidity_slots() -> Seq<(usize, bool, bool)> {
    seq![
        (0usize, false, true),
        (1usize, false, false),
        (2usize, true, false),
        (3usize, false, true),
        (4usize, false, true),
        (5usize, false, true),
        (6usize, false, true),
        (7usize, false, true),
        (8usize, false, true),
        (9usize, false, true),
        (10usize, false, false),
    ]
}

/// Remove `lp_amount` pool tokens for at least `coin_amount_out` coin and
/// `pc_amount_out` pc: the `withdraw_all_token_types` instruction with the
/// three amounts. The outputs are the balances the coin (7) and pc (8) token
/// accounts reach, neither of which may shrink, and the gain of the pool
/// token account (3).
pub fn remove_liquidity(
    program_id: Pubkey,
    remaining_accounts: &[RemainingAccount],
    input: RemoveLiquidityInputWrapper,
    coin_amount_out: u64,
    pc_amount_out: u64,
) -> (r: Plan)
    requires
        remaining_accounts@.len() >= 11,
    ensures
        one_call(
            r,
            program_id,
            slot_metas(remaining_accounts@, remove_liquidity_slots()),
            sighash_spec("global"@, "withdraw_all_token_types"@) + le64(input.lp_amount) + le64(
                coin_amount_out,
            ) + le64(pc_amount_out),
            seq![
                OutputSlot::Measured(7usize, Direction::Reached),
                OutputSlot::Measured(8usize, Direction::Reached),
                OutputSlot::Measured(3usize, Direction::Gain),
                OutputSlot::Zero,
            ],
        ),
{
    let slots: [(usize, bool, bool); 11] = [
        (0, false, true),
        (1, false, false),
        (2, true, false),
        (3, false, true),
        (4, false, true),
        (5, false, true),
        (6, false, true),
        (7, false, true),
        (8, false, true),
        (9, false, true),
        (10, false, false),
    ];
    assert(slots@ =~= remove_liquidity_slots());
    let accounts = fixed_metas(remaining_accounts, &slots);
    let mut data: Vec<u8> = Vec::new();
    let selector = sighash("global", "withdraw_all_token_types");
    push_bytes(&mut data, selector.as_slice());
    assert(data@ =~= sighash_spec("global"@, "withdraw_all_token_types"@));
    push_u64(&mut data, input.lp_amount);
    push_u64(&mut data, coin_amount_out);
    push_u64(&mut data, pc_amount_out);
    let outputs = vec![
        OutputSlot::Measured(7, Direction::Reached),
        OutputSlot::Measured(8, Direction::Reached),
        OutputSlot::Measured(3, Direction::Gain),
        OutputSlot::Zero,
    ];
    single_call(Instruction { program_id, accounts, data }, outputs)
}


} // verus!
