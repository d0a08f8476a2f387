//! Adapter for Jupiter swap aggregator: what each of its instructions invokes and
//! how its outputs are read.
use vstd::prelude::*;
use vstd::std_specs::convert::FromSpecImpl;
use crate::adapter_common::{
    AccountInfos, AccountMeta, Direction, ErrorCode, InputError, Instruction, Invocation, OutputSlot,
    Plan, RemainingAccount, call_is, encode_output, fixed_metas, le16, le32, load_all_accounts,
    load_remaining_accounts, loaded_meta, loaded_metas, meta, one_call, output_bytes, outputs_are,
    invoke_all, picked_infos, plan_of, push_readonly_tail, push_u16, read_array30_at, read_bool_at,
    read_u16_at, read_u32_at, read_u64_at, read_u8_at, readonly_tail, sighash, sighash_spec,
    single_call, slot_metas,
};
use crate::pack::{bool_byte, le64, push_byte, push_bytes, push_u64};
use crate::pubkey::Pubkey;

verus! {

/// Bytes of the route configuration in the input.
pub const SWAP_CONFIG_SIZE: usize = 30;

/// Platform fee, in basis points, passed to the route.
pub const PLATFORM_FEE: u8 = 0;

/// Input of the instruction, as its bytes hold it.
#[derive(Clone, Copy, Debug, PartialEq, Eq)]
pub struct SwapInputWrapper {
    pub in_amount: u64,
    pub out_amount: u64,
    pub slippage_bps: u16,
    pub swap_config: [u8; 30],
}

impl SwapInputWrapper {
    /// Decode the input from its first 48 bytes, each field little-endian; later bytes are ignored.
    pub fn decode(input: &[u8]) -> (r: Result<SwapInputWrapper, InputError>)
        ensures
            input@.len() < 48 ==> r == Err::<SwapInputWrapper, InputError>(InputError::TooShort),
            input@.len() >= 48 ==> (r matches Ok(v) && le64(v.in_amount) == input@.subrange(0, 8) && le64(v.out_amount) == input@.subrange(8, 16) && le16(v.slippage_bps) == input@.subrange(16, 18) && v.swap_config@ == input@.subrange(18, 48)),
    {
        let in_amount = read_u64_at(input, 0)?;
        let out_amount = read_u64_at(input, 8)?;
        let slippage_bps = read_u16_at(input, 16)?;
        let swap_config = read_array30_at(input, 18)?;
        Ok(SwapInputWrapper { in_amount, out_amount, slippage_bps, swap_config })
    }
}

/// Output of the instruction: four amounts.
#[derive(Clone, Copy, Debug, PartialEq, Eq)]
pub struct SwapOutputWrapper {
    pub swap_out_amount: u64,
    pub dummy_2: u64,
    pub dummy_3: u64,
    pub dummy_4: u64,
}

impl SwapOutputWrapper {
    /// The 32 output bytes: the four amounts, in order, little-endian.
    pub fn encode(&self) -> (r: Vec<u8>)
        ensures
            r@ == output_bytes(self.swap_out_amount, self.dummy_2, self.dummy_3, self.dummy_4),
    {
        encode_output(self.swap_out_amount, self.dummy_2, self.dummy_3, self.dummy_4)
    }
}

/// The four output amounts as a tuple, to be read by position.
pub type SwapOutputTuple = (u64, u64, u64, u64);

impl From<SwapOutputWrapper> for SwapOutputTuple {
    fn from(result: SwapOutputWrapper) -> Self {
        (result.swap_out_amount, result.dummy_2, result.dummy_3, result.dummy_4)
    }
}

impl FromSpecImpl<SwapOutputWrapper> for SwapOutputTuple {
    open spec fn obeys_from_spec() -> bool {
        true
    }

    open spec fn from_spec(v: SwapOutputWrapper) -> Self {
        (v.swap_out_amount, v.dummy_2, v.dummy_3, v.dummy_4)
    }
}

/// The route bytes taken from the configuration: with a first byte `n`
/// between 1 and 29, the bytes 1 to `n`; with a first byte 0, all 30 bytes;
/// otherwise the bytes 1 to 29.
pub open spec fn route_bytes(config: Seq<u8>) -> Seq<u8> {
    if config[0] > 0 && config[0] < 30 {
        config.subrange(1, config[0] + 1)
    } else if config[0] == 0 {
        config.subrange(0, 30)
    } else {
        config.subrange(1, 30)
    }
}

/// Swap along a route: the `route` instruction with the route bytes of the
/// configuration, the in and out amounts, the slippage in basis points and
/// the platform fee, on every remaining account as it is flagged. The
/// destination token account (2) is measured.
pub fn swap(
    program_id: Pubkey,
    remaining_accounts: &[RemainingAccount],
    input: SwapInputWrapper,
) -> (r: Plan)
    requires
        remaining_accounts@.len() >= 3,
    ensures
        one_call(
            r,
            program_id,
            remaining_accounts@.map_values(|a: RemainingAccount| loaded_meta(a)),
            sighash_spec("global"@, "route"@) + route_bytes(input.swap_config@) + le64(input.in_amount)
                + le64(input.out_amount) + le16(input.slippage_bps) + seq![PLATFORM_FEE],
            seq![
                OutputSlot::Measured(2usize, Direction::Change),
                OutputSlot::Zero,
                OutputSlot::Zero,
                OutputSlot::Zero,
            ],
        ),
{
    let config = input.swap_config;
    let mut last_index: usize = SWAP_CONFIG_SIZE - 1;
    let mut start_index: usize = 1;
    if config[0] > 0 && config[0] < 30 {
        last_index = config[0] as usize;
    } else if config[0] == 0 {
        start_index = 0;
    }
    let accounts = load_all_accounts(remaining_accounts);
    let mut data: Vec<u8> = Vec::new();
    let selector = sighash("global", "route");
    push_bytes(&mut data, selector.as_slice());
    assert(data@ =~= sighash_spec("global"@, "route"@));
    let ghost before = data@;
    let mut i: usize = start_index;
    while i <= last_index
        invariant
            start_index <= i <= last_index + 1,
            last_index < 30,
            config@.len() == 30,
            data@ == before + config@.subrange(start_index as int, i as int),
        decreases last_index + 1 - i,
    {
        data.push(config[i]);
        i = i + 1;
        assert(data@ =~= before + config@.subrange(start_index as int, i as int));
    }
    assert(config@.subrange(start_index as int, last_index + 1) =~= route_bytes(config@));
    push_u64(&mut data, input.in_amount);
    push_u64(&mut data, input.out_amount);
    push_u16(&mut data, input.slippage_bps);
    push_byte(&mut data, PLATFORM_FEE);
    let outputs = vec![
        OutputSlot::Measured(2, Direction::Change),
        OutputSlot::Zero,
        OutputSlot::Zero,
        OutputSlot::Zero,
    ];
    single_call(Instruction { program_id, accounts, data }, outputs)
}


} // verus!
