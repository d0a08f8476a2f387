//! What every adapter shares: the accounts an instruction is given, the
//! cross-program instructions it builds, instruction selectors, balance
//! changes and the fixed byte layout of inputs and outputs.
use vstd::prelude::*;
use crate::pack::{le64, lemma_le_roundtrips, push_u64};
use crate::pubkey::Pubkey;
use vstd::bytes::{
    spec_u16_to_le_bytes, spec_u32_to_le_bytes, u16_from_le_bytes, u16_to_le_bytes, u32_from_le_bytes,
    u64_from_le_bytes,
};

verus! {

/// An account passed to an adapter instruction, as the adapters read it.
#[derive(Clone, Copy, Debug, PartialEq, Eq)]
pub struct RemainingAccount {
    /// Address of the account
    pub key: Pubkey,
    /// Whether the transaction was signed by this account
    pub is_signer: bool,
    /// Whether the account may be written
    pub is_writable: bool,
}

/// An account of a cross-program instruction: its address and whether it
/// must sign and may be written.
#[derive(Clone, Copy, Debug, PartialEq, Eq)]
pub struct AccountMeta {
    /// Address of the account
    pub pubkey: Pubkey,
    /// Whether the account must sign
    pub is_signer: bool,
    /// Whether the account may be written
    pub is_writable: bool,
}

/// The account meta of `pubkey` with the given flags.
pub open spec fn meta(pubkey: Pubkey, is_signer: bool, is_writable: bool) -> AccountMeta {
    AccountMeta { pubkey, is_signer, is_writable }
}

impl AccountMeta {
    /// A writable account.
    pub fn new(pubkey: Pubkey, is_signer: bool) -> (r: AccountMeta)
        ensures
            r == meta(pubkey, is_signer, true),
    {
        AccountMeta { pubkey, is_signer, is_writable: true }
    }

    /// A read-only account.
    pub fn new_readonly(pubkey: Pubkey, is_signer: bool) -> (r: AccountMeta)
        ensures
            r == meta(pubkey, is_signer, false),
    {
        AccountMeta { pubkey, is_signer, is_writable: false }
    }
}

/// A cross-program instruction.
#[derive(Clone, Debug)]
pub struct Instruction {
    /// Program to run
    pub program_id: Pubkey,
    /// Accounts it is given, in order
    pub accounts: Vec<AccountMeta>,
    /// Its data
    pub data: Vec<u8>,
}

/// Which of the remaining accounts an invocation hands to the runtime.
#[derive(Clone, Debug, PartialEq, Eq)]
pub enum AccountInfos {
    /// All of them
    All,
    /// Those from the first index up to, not including, the second
    Range(usize, usize),
    /// Those at the given positions, in that order
    Picked(Vec<usize>),
}

/// One cross-program invocation: the instruction and the accounts handed over.
#[derive(Clone, Debug)]
pub struct Invocation {
    /// The instruction to invoke
    pub instruction: Instruction,
    /// The accounts handed to the runtime with it
    pub infos: AccountInfos,
}

/// An invocation of `instruction` with all remaining accounts.
pub fn invoke_all(instruction: Instruction) -> (r: Invocation)
    ensures
        r.instruction == instruction,
        r.infos == AccountInfos::All,
{
    Invocation { instruction, infos: AccountInfos::All }
}

/// An account meta that copies the flags of a remaining account.
pub open spec fn loaded_meta(a: RemainingAccount) -> AccountMeta {
    AccountMeta { pubkey: a.key, is_signer: a.is_signer, is_writable: a.is_writable }
}

/// The account metas of the remaining accounts at the positions `index_array`.
pub open spec fn loaded_metas(accounts: Seq<RemainingAccount>, index_array: Seq<usize>) -> Seq<
    AccountMeta,
> {
    index_array.map_values(|i: usize| loaded_meta(accounts[i as int]))
}

/// Every position is a valid index of `len` accounts.
pub open spec fn indices_in(index_array: Seq<usize>, len: int) -> bool {
    forall|i: int| 0 <= i < index_array.len() ==> #[trigger] index_array[i] < len
}

/// The account metas of the remaining accounts at the positions
/// `index_array`, each writable and signing as the account itself is.
pub fn load_remaining_accounts(remaining_accounts: &[RemainingAccount], index_array: &[usize]) -> (r:
    Vec<AccountMeta>)
    requires
        indices_in(index_array@, remaining_accounts@.len() as int),
    ensures
        r@ == loaded_metas(remaining_accounts@, index_array@),
{
    let mut accounts: Vec<AccountMeta> = Vec::new();
    let mut i: usize = 0;
    while i < index_array.len()
        invariant
            0 <= i <= index_array@.len(),
            indices_in(index_array@, remaining_accounts@.len() as int),
            accounts@ == loaded_metas(remaining_accounts@, index_array@.subrange(0, i as int)),
        decreases index_array@.len() - i,
    {
        let index = index_array[i];
        let account = remaining_accounts[index];
        if account.is_writable {
            accounts.push(AccountMeta::new(account.key, account.is_signer));
        } else {
            accounts.push(AccountMeta::new_readonly(account.key, account.is_signer));
        }
        i = i + 1;
        assert(accounts@ =~= loaded_metas(remaining_accounts@, index_array@.subrange(0, i as int)));
    }
    assert(index_array@.subrange(0, index_array@.len() as int) =~= index_array@);
    accounts
}

/// A fixed account slot of an instruction: which remaining account, and
/// whether it signs and may be written.
pub open spec fn slot_meta(accounts: Seq<RemainingAccount>, slot: (usize, bool, bool)) -> AccountMeta {
    meta(accounts[slot.0 as int].key, slot.1, slot.2)
}

/// The account metas of fixed slots.
pub open spec fn slot_metas(accounts: Seq<RemainingAccount>, slots: Seq<(usize, bool, bool)>) -> Seq<
    AccountMeta,
> {
    slots.map_values(|s: (usize, bool, bool)| slot_meta(accounts, s))
}

/// The account metas of fixed slots: each names a remaining account by
/// position and gives its signer and writable flags.
pub fn fixed_metas(remaining_accounts: &[RemainingAccount], slots: &[(usize, bool, bool)]) -> (r: Vec<
    AccountMeta,
>)
    requires
        forall|i: int| 0 <= i < slots@.len() ==> (#[trigger] slots@[i]).0 < remaining_accounts@.len(),
    ensures
        r@ == slot_metas(remaining_accounts@, slots@),
{
    let mut accounts: Vec<AccountMeta> = Vec::new();
    let mut i: usize = 0;
    while i < slots.len()
        invariant
            0 <= i <= slots@.len(),
            forall|j: int| 0 <= j < slots@.len() ==> (#[trigger] slots@[j]).0 < remaining_accounts@.len(),
            accounts@ == slot_metas(remaining_accounts@, slots@.subrange(0, i as int)),
        decreases slots@.len() - i,
    {
        let s = slots[i];
        accounts.push(AccountMeta { pubkey: remaining_accounts[s.0].key, is_signer: s.1, is_writable: s.2 });
        i = i + 1;
        assert(accounts@ =~= slot_metas(remaining_accounts@, slots@.subrange(0, i as int)));
    }
    assert(slots@.subrange(0, slots@.len() as int) =~= slots@);
    accounts
}

/// The positions handed to an invocation when it picks accounts: the
/// positions of `index_array` first, then the first remaining account in
/// every other of the thirty places.
pub open spec fn picked_positions(index_array: Seq<usize>) -> Seq<usize> {
    Seq::new(30, |i: int| if i < index_array.len() { index_array[i] } else { 0usize })
}

/// Thirty account positions: those of `index_array`, then position 0 for the
/// rest. There must be at least one remaining account, and `index_array` may
/// hold thirty positions at most.
pub fn account_info_array(remaining_len: usize, index_array: &[usize]) -> (r: [usize; 30])
    requires
        remaining_len > 0,
        index_array@.len() <= 30,
        indices_in(index_array@, remaining_len as int),
    ensures
        r@ == picked_positions(index_array@),
{
    let mut accounts: [usize; 30] = [0usize; 30];
    let mut i: usize = 0;
    while i < index_array.len()
        invariant
            0 <= i <= index_array@.len() <= 30,
            accounts@.len() == 30,
            forall|j: int| 0 <= j < i ==> accounts@[j] == index_array@[j],
            forall|j: int| i <= j < 30 ==> accounts@[j] == 0,
        decreases index_array@.len() - i,
    {
        accounts[i] = index_array[i];
        i = i + 1;
    }
    assert(accounts@ =~= picked_positions(index_array@));
    accounts
}

/// The accounts an invocation picks by position: the first `index_array`
/// entries of `account_info_array`.
pub fn picked_infos(remaining_len: usize, index_array: &[usize]) -> (r: AccountInfos)
    requires
        remaining_len > 0,
        index_array@.len() <= 30,
        indices_in(index_array@, remaining_len as int),
    ensures
        r matches AccountInfos::Picked(v) && v@ == index_array@,
{
    let positions = account_info_array(remaining_len, index_array);
    let mut picked: Vec<usize> = Vec::new();
    let mut i: usize = 0;
    while i < index_array.len()
        invariant
            0 <= i <= index_array@.len() <= 30,
            positions@ == picked_positions(index_array@),
            picked@ == index_array@.subrange(0, i as int),
        decreases index_array@.len() - i,
    {
        picked.push(positions[i]);
        i = i + 1;
        assert(picked@ =~= index_array@.subrange(0, i as int));
    }
    assert(index_array@.subrange(0, index_array@.len() as int) =~= index_array@);
    AccountInfos::Picked(picked)
}

/// How much a balance moved between two readings, in either direction.
pub open spec fn balance_change(before: u64, after: u64) -> u64 {
    if after >= before {
        (after - before) as u64
    } else {
        (before - after) as u64
    }
}

/// A token account's balance before an invocation, so that the change can
/// be measured after it.
#[derive(Clone, Copy, Debug, PartialEq, Eq)]
pub struct TokenAccountAndBalance {
    /// Position of the token account among the remaining accounts
    pub account_index: usize,
    /// Its balance before the invocation
    pub balance_before: u64,
}

impl TokenAccountAndBalance {
    /// Record the balance of the token account at `account_index`.
    pub fn new(account_index: usize, balance_before: u64) -> (r: Self)
        ensures
            r.account_index == account_index,
            r.balance_before == balance_before,
    {
        TokenAccountAndBalance { account_index, balance_before }
    }

    /// How much the balance moved, up or down, now that it reads `balance_after`.
    pub fn get_balance_change(&self, balance_after: u64) -> (r: u64)
        ensures
            r == balance_change(self.balance_before, balance_after),
    {
        let balance_before = self.balance_before;
        if balance_after > balance_before {
            balance_after - balance_before
        } else if balance_after == balance_before {
            0
        } else {
            balance_before - balance_after
        }
    }
}

/// A balance change does not depend on which reading came first, and is zero
/// exactly when the balance did not move.
pub proof fn lemma_balance_change_symmetric(a: u64, b: u64)
    ensures
        balance_change(a, b) == balance_change(b, a),
        balance_change(a, b) == 0 <==> a == b,
        balance_change(a, b) + (if a <= b { a } else { b }) == (if a <= b { b } else { a }),
{
}

/// SHA-256 digest of `data`.
pub uninterp spec fn sha256_digest(data: Seq<u8>) -> Seq<u8>;

/// SHA-256 of `data`, by `anchor_lang::solana_program::hash::hash`; the
/// contract names the digest and says nothing more of it.
#[verifier::external_body]
fn sha256(data: &[u8]) -> (r: [u8; 32])
    ensures
        r@ == sha256_digest(data@),
{
    anchor_lang::solana_program::hash::hash(data).to_bytes()
}

/// The bytes hashed for the selector of `name` in `namespace`: `namespace:name`.
pub open spec fn sighash_preimage(namespace: Seq<char>, name: Seq<char>) -> Seq<u8> {
    vstd::utf8::encode_utf8(namespace) + seq![58u8] + vstd::utf8::encode_utf8(name)
}

/// The 8-byte selector of `name` in `namespace`: the first bytes of the
/// SHA-256 of `namespace:name`.
pub open spec fn sighash_spec(namespace: Seq<char>, name: Seq<char>) -> Seq<u8> {
    sha256_digest(sighash_preimage(namespace, name)).subrange(0, 8)
}

/// The 8-byte selector of `name` in `namespace`.
pub fn sighash(namespace: &str, name: &str) -> (r: [u8; 8])
    ensures
        r@ == sighash_spec(namespace@, name@),
{
    let mut preimage: Vec<u8> = Vec::new();
    crate::pack::push_bytes(&mut preimage, namespace.as_bytes());
    assert(preimage@ =~= vstd::utf8::encode_utf8(namespace@));
    preimage.push(58u8);
    crate::pack::push_bytes(&mut preimage, name.as_bytes());
    assert(preimage@ =~= sighash_preimage(namespace@, name@));
    let digest = sha256(preimage.as_slice());
    let mut out = [0u8; 8];
    let mut i: usize = 0;
    while i < 8
        invariant
            0 <= i <= 8,
            digest@.len() == 32,
            forall|j: int| 0 <= j < i ==> out@[j] == digest@[j],
        decreases 8 - i,
    {
        out[i] = digest[i];
        i = i + 1;
    }
    assert(out@ =~= digest@.subrange(0, 8));
    out
}

/// Why input bytes do not decode.
#[derive(Clone, Copy, Debug, PartialEq, Eq)]
pub enum InputError {
    /// The bytes end before the last field
    TooShort,
    /// A flag byte is neither 0 nor 1
    InvalidBool,
}

/// The little-endian `u64` at `offset`, when the input holds it.
pub fn read_u64_at(input: &[u8], offset: usize) -> (r: Result<u64, InputError>)
    ensures
        offset + 8 <= input@.len() ==> (r matches Ok(v) && le64(v) == input@.subrange(
            offset as int,
            offset + 8,
        )),
        offset + 8 > input@.len() ==> r == Err::<u64, InputError>(InputError::TooShort),
{
    let n: usize = input.len();
    if offset > n || n - offset < 8 {
        return Err(InputError::TooShort);
    }
    let v = u64_from_le_bytes(&input[offset..offset + 8]);
    proof {
        lemma_le_roundtrips();
    }
    Ok(v)
}

/// The byte at `offset`, when the input holds it.
pub fn read_u8_at(input: &[u8], offset: usize) -> (r: Result<u8, InputError>)
    ensures
        offset < input@.len() ==> r == Ok::<u8, InputError>(input@[offset as int]),
        offset >= input@.len() ==> r == Err::<u8, InputError>(InputError::TooShort),
{
    if offset >= input.len() {
        return Err(InputError::TooShort);
    }
    Ok(input[offset])
}

/// The 30 bytes at `offset`, when the input holds them.
pub fn read_array30_at(input: &[u8], offset: usize) -> (r: Result<[u8; 30], InputError>)
    ensures
        offset + 30 <= input@.len() ==> (r matches Ok(v) && v@ == input@.subrange(
            offset as int,
            offset + 30,
        )),
        offset + 30 > input@.len() ==> r == Err::<[u8; 30], InputError>(InputError::TooShort),
{
    let n: usize = input.len();
    if offset > n || n - offset < 30 {
        return Err(InputError::TooShort);
    }
    let mut out = [0u8; 30];
    let mut i: usize = 0;
    while i < 30
        invariant
            0 <= i <= 30,
            n == input@.len(),
            offset + 30 <= n,
            forall|j: int| 0 <= j < i ==> out@[j] == input@[offset + j],
        decreases 30 - i,
    {
        out[i] = input[offset + i];
        i = i + 1;
    }
    assert(out@ =~= input@.subrange(offset as int, offset + 30));
    Ok(out)
}

/// The flag at `offset`: 0 is false, 1 is true, any other byte is invalid.
pub fn read_bool_at(input: &[u8], offset: usize) -> (r: Result<bool, InputError>)
    ensures
        offset >= input@.len() ==> r == Err::<bool, InputError>(InputError::TooShort),
        offset < input@.len() && input@[offset as int] == 0 ==> r == Ok::<bool, InputError>(false),
        offset < input@.len() && input@[offset as int] == 1 ==> r == Ok::<bool, InputError>(true),
        offset < input@.len() && input@[offset as int] > 1 ==> r == Err::<bool, InputError>(
            InputError::InvalidBool,
        ),
{
    let b = read_u8_at(input, offset)?;
    match b {
        0 => Ok(false),
        1 => Ok(true),
        _ => Err(InputError::InvalidBool),
    }
}

/// The 32 output bytes of four amounts, each little-endian.
pub open spec fn output_bytes(a: u64, b: u64, c: u64, d: u64) -> Seq<u8> {
    le64(a) + le64(b) + le64(c) + le64(d)
}

/// Encode four amounts as the 32 output bytes.
pub fn encode_output(a: u64, b: u64, c: u64, d: u64) -> (r: Vec<u8>)
    ensures
        r@ == output_bytes(a, b, c, d),
        r@.len() == 32,
{
    let mut out: Vec<u8> = Vec::new();
    push_u64(&mut out, a);
    assert(out@ =~= le64(a));
    push_u64(&mut out, b);
    push_u64(&mut out, c);
    push_u64(&mut out, d);
    proof {
        lemma_le_roundtrips();
    }
    out
}

/// Little-endian bytes of a `u16`.
pub open spec fn le16(x: u16) -> Seq<u8> {
    spec_u16_to_le_bytes(x)
}

/// Little-endian bytes of a `u32`.
pub open spec fn le32(x: u32) -> Seq<u8> {
    spec_u32_to_le_bytes(x)
}

/// The little-endian `u16` at `offset`, when the input holds it.
pub fn read_u16_at(input: &[u8], offset: usize) -> (r: Result<u16, InputError>)
    ensures
        offset + 2 <= input@.len() ==> (r matches Ok(v) && le16(v) == input@.subrange(
            offset as int,
            offset + 2,
        )),
        offset + 2 > input@.len() ==> r == Err::<u16, InputError>(InputError::TooShort),
{
    let n: usize = input.len();
    if offset > n || n - offset < 2 {
        return Err(InputError::TooShort);
    }
    let v = u16_from_le_bytes(&input[offset..offset + 2]);
    proof {
        vstd::bytes::lemma_auto_spec_u16_to_from_le_bytes();
    }
    Ok(v)
}

/// The little-endian `u32` at `offset`, when the input holds it.
pub fn read_u32_at(input: &[u8], offset: usize) -> (r: Result<u32, InputError>)
    ensures
        offset + 4 <= input@.len() ==> (r matches Ok(v) && le32(v) == input@.subrange(
            offset as int,
            offset + 4,
        )),
        offset + 4 > input@.len() ==> r == Err::<u32, InputError>(InputError::TooShort),
{
    let n: usize = input.len();
    if offset > n || n - offset < 4 {
        return Err(InputError::TooShort);
    }
    let v = u32_from_le_bytes(&input[offset..offset + 4]);
    proof {
        vstd::bytes::lemma_auto_spec_u32_to_from_le_bytes();
    }
    Ok(v)
}

/// Append the little-endian bytes of a `u16`.
pub fn push_u16(data: &mut Vec<u8>, x: u16)
    ensures
        final(data)@ == old(data)@ + le16(x),
{
    let b = u16_to_le_bytes(x);
    crate::pack::push_bytes(data, b.as_slice());
}

/// How an output amount is read off a token account's balances.
#[derive(Clone, Copy, Debug, PartialEq, Eq)]
pub enum Direction {
    /// How far the balance moved, either way
    Change,
    /// How much it grew; it must not have shrunk
    Gain,
    /// How much it shrank; it must not have grown
    Loss,
    /// The balance afterwards; it must not have shrunk
    Reached,
}

/// One of the four output amounts of an adapter instruction.
#[derive(Clone, Copy, Debug, PartialEq, Eq)]
pub enum OutputSlot {
    /// Always zero
    Zero,
    /// A fixed amount
    Amount(u64),
    /// Read off the balances of the token account at a position, before and
    /// after the invocations
    Measured(usize, Direction),
}

/// What an adapter instruction does: its invocations, in order, and how its
/// output amounts are read, or no output at all.
#[derive(Clone, Debug)]
pub struct Plan {
    /// The invocations, in order
    pub invocations: Vec<Invocation>,
    /// The output amounts, or none when the instruction returns no data
    pub outputs: Option<Vec<OutputSlot>>,
}

/// A measured balance may be read that way.
pub open spec fn readable(direction: Direction, before: u64, after: u64) -> bool {
    match direction {
        Direction::Change => true,
        Direction::Gain => before <= after,
        Direction::Loss => after <= before,
        Direction::Reached => before <= after,
    }
}

/// The amount a direction reads off two balances.
pub open spec fn read_amount(direction: Direction, before: u64, after: u64) -> u64 {
    match direction {
        Direction::Change => balance_change(before, after),
        Direction::Gain => (after - before) as u64,
        Direction::Loss => (before - after) as u64,
        Direction::Reached => after,
    }
}

/// The amount of an output slot, given the balances before and after of the
/// token account it measures.
pub open spec fn slot_amount(slot: OutputSlot, before: u64, after: u64) -> u64 {
    match slot {
        OutputSlot::Zero => 0,
        OutputSlot::Amount(v) => v,
        OutputSlot::Measured(_, d) => read_amount(d, before, after),
    }
}

/// The slot can be read off those balances.
pub open spec fn slot_readable(slot: OutputSlot, before: u64, after: u64) -> bool {
    match slot {
        OutputSlot::Measured(_, d) => readable(d, before, after),
        _ => true,
    }
}

/// Whether an output slot can be read off these balances: a gain or a
/// balance reached must not have shrunk, a loss must not have grown.
pub fn slot_is_readable(slot: OutputSlot, before: u64, after: u64) -> (r: bool)
    ensures
        r == slot_readable(slot, before, after),
{
    match slot {
        OutputSlot::Measured(_, d) => match d {
            Direction::Change => true,
            Direction::Gain => before <= after,
            Direction::Loss => after <= before,
            Direction::Reached => before <= after,
        },
        _ => true,
    }
}

/// The amount of an output slot. For a measured slot, `before` and `after`
/// are the balances of its token account; a gain or a balance reached must
/// not have shrunk, a loss must not have grown.
pub fn output_amount(slot: OutputSlot, before: u64, after: u64) -> (r: u64)
    requires
        slot_readable(slot, before, after),
    ensures
        r == slot_amount(slot, before, after),
{
    match slot {
        OutputSlot::Zero => 0,
        OutputSlot::Amount(v) => v,
        OutputSlot::Measured(_, d) => match d {
            Direction::Change => TokenAccountAndBalance::new(0, before).get_balance_change(after),
            Direction::Gain => after - before,
            Direction::Loss => before - after,
            Direction::Reached => after,
        },
    }
}

/// The first four amounts, zero where there are fewer.
pub open spec fn padded(amounts: Seq<u64>, i: int) -> u64 {
    if i < amounts.len() {
        amounts[i]
    } else {
        0
    }
}

/// The 32 output bytes of up to four amounts, padded with zeros.
pub fn encode_amounts(amounts: &[u64]) -> (r: Vec<u8>)
    requires
        amounts@.len() <= 4,
    ensures
        r@ == output_bytes(
            padded(amounts@, 0),
            padded(amounts@, 1),
            padded(amounts@, 2),
            padded(amounts@, 3),
        ),
{
    let a = if amounts.len() > 0 { amounts[0] } else { 0 };
    let b = if amounts.len() > 1 { amounts[1] } else { 0 };
    let c = if amounts.len() > 2 { amounts[2] } else { 0 };
    let d = if amounts.len() > 3 { amounts[3] } else { 0 };
    encode_output(a, b, c, d)
}

/// A plan of one invocation of `instruction` with all remaining accounts.
pub fn single_call(instruction: Instruction, outputs: Vec<OutputSlot>) -> (r: Plan)
    ensures
        r.invocations@ == seq![Invocation { instruction, infos: AccountInfos::All }],
        r.outputs == Some(outputs),
{
    let mut invocations: Vec<Invocation> = Vec::new();
    invocations.push(invoke_all(instruction));
    assert(invocations@ =~= seq![Invocation { instruction, infos: AccountInfos::All }]);
    Plan { invocations, outputs: Some(outputs) }
}

/// The plan makes one invocation with all remaining accounts, of an
/// instruction of `program_id` with these accounts and data, and reads these
/// outputs.
pub open spec fn one_call(
    p: Plan,
    program_id: Pubkey,
    accounts: Seq<AccountMeta>,
    data: Seq<u8>,
    outputs: Seq<OutputSlot>,
) -> bool {
    &&& p.invocations@.len() == 1
    &&& p.invocations@[0].instruction.program_id == program_id
    &&& p.invocations@[0].instruction.accounts@ == accounts
    &&& p.invocations@[0].instruction.data@ == data
    &&& p.invocations@[0].infos == AccountInfos::All
    &&& p.outputs matches Some(v) && v@ == outputs
}

/// The account metas of all remaining accounts, each writable and signing
/// as the account itself is.
pub fn load_all_accounts(remaining_accounts: &[RemainingAccount]) -> (r: Vec<AccountMeta>)
    ensures
        r@ == remaining_accounts@.map_values(|a: RemainingAccount| loaded_meta(a)),
{
    let mut accounts: Vec<AccountMeta> = Vec::new();
    let mut i: usize = 0;
    while i < remaining_accounts.len()
        invariant
            0 <= i <= remaining_accounts@.len(),
            accounts@ == remaining_accounts@.subrange(0, i as int).map_values(
                |a: RemainingAccount| loaded_meta(a),
            ),
        decreases remaining_accounts@.len() - i,
    {
        let account = remaining_accounts[i];
        if account.is_writable {
            accounts.push(AccountMeta::new(account.key, account.is_signer));
        } else {
            accounts.push(AccountMeta::new_readonly(account.key, account.is_signer));
        }
        i = i + 1;
        assert(accounts@ =~= remaining_accounts@.subrange(0, i as int).map_values(
            |a: RemainingAccount| loaded_meta(a),
        ));
    }
    assert(remaining_accounts@.subrange(0, remaining_accounts@.len() as int) =~= remaining_accounts@);
    accounts
}

/// Loading every remaining account in order, by position, gives the same
/// account metas as loading them all.
pub proof fn lemma_load_every_position_is_load_all(accounts: Seq<RemainingAccount>)
    requires
        accounts.len() <= usize::MAX,
    ensures
        indices_in(Seq::new(accounts.len(), |i: int| i as usize), accounts.len() as int),
        loaded_metas(accounts, Seq::new(accounts.len(), |i: int| i as usize)) == accounts.map_values(
            |a: RemainingAccount| loaded_meta(a),
        ),
{
    let positions = Seq::new(accounts.len(), |i: int| i as usize);
    assert forall|i: int| 0 <= i < positions.len() implies #[trigger] positions[i] < accounts.len() by {}
    assert(loaded_metas(accounts, positions) =~= accounts.map_values(|a: RemainingAccount| loaded_meta(a)));
}

/// The invocation runs an instruction of `program_id` with these accounts
/// and data, handing over these accounts.
pub open spec fn call_is(
    inv: Invocation,
    program_id: Pubkey,
    accounts: Seq<AccountMeta>,
    data: Seq<u8>,
    infos: AccountInfos,
) -> bool {
    &&& inv.instruction.program_id == program_id
    &&& inv.instruction.accounts@ == accounts
    &&& inv.instruction.data@ == data
    &&& inv.infos == infos
}

/// The plan's output slots are these.
pub open spec fn outputs_are(p: Plan, outputs: Seq<OutputSlot>) -> bool {
    p.outputs matches Some(v) && v@ == outputs
}

/// The account metas of the remaining accounts from position `start` on,
/// each read-only and not signing.
pub open spec fn readonly_tail(accounts: Seq<RemainingAccount>, start: int) -> Seq<AccountMeta> {
    accounts.subrange(start, accounts.len() as int).map_values(
        |a: RemainingAccount| meta(a.key, false, false),
    )
}

/// Append every remaining account from position `start` on, read-only and
/// not signing.
pub fn push_readonly_tail(
    accounts: &mut Vec<AccountMeta>,
    remaining_accounts: &[RemainingAccount],
    start: usize,
)
    requires
        start <= remaining_accounts@.len(),
    ensures
        final(accounts)@ == old(accounts)@ + readonly_tail(remaining_accounts@, start as int),
{
    let mut i: usize = start;
    while i < remaining_accounts.len()
        invariant
            start <= i <= remaining_accounts@.len(),
            accounts@ == old(accounts)@ + remaining_accounts@.subrange(start as int, i as int).map_values(
                |a: RemainingAccount| meta(a.key, false, false),
            ),
        decreases remaining_accounts@.len() - i,
    {
        accounts.push(AccountMeta::new_readonly(remaining_accounts[i].key, false));
        i = i + 1;
        assert(accounts@ =~= old(accounts)@ + remaining_accounts@.subrange(start as int, i as int).map_values(
            |a: RemainingAccount| meta(a.key, false, false),
        ));
    }
}

/// A plan of the given invocations and outputs.
pub fn plan_of(invocations: Vec<Invocation>, outputs: Vec<OutputSlot>) -> (r: Plan)
    ensures
        r.invocations == invocations,
        r.outputs == Some(outputs),
{
    Plan { invocations, outputs: Some(outputs) }
}

/// Errors of the adapters' own rules.
#[derive(Clone, Copy, Debug, PartialEq, Eq)]
pub enum ErrorCode {
    /// Unsupported Action
    UnsupportedAction,
    /// Unsupported PoolDirection
    UnsupportedPoolDirection,
    /// Unsupported Action Version
    UnsupportedVersion,
    /// Unsupported Vault Protocol
    UnsupportedVaultProtocol,
    /// Index might out of bound, currently only support 30 addresses
    IndexOutOfBound,
}

impl ErrorCode {
    /// The message of the error.
    pub fn message(&self) -> (r: &'static str)
        ensures
            *self == ErrorCode::UnsupportedAction ==> r@ == "Unsupported Action"@,
            *self == ErrorCode::UnsupportedPoolDirection ==> r@ == "Unsupported PoolDirection"@,
            *self == ErrorCode::UnsupportedVersion ==> r@ == "Unsupported Action Version"@,
            *self == ErrorCode::UnsupportedVaultProtocol ==> r@ == "Unsupported Vault Protocol"@,
            *self == ErrorCode::IndexOutOfBound
                ==> r@ == "Index might out of bound, currently only support 30 addresses"@,
    {
        match self {
            ErrorCode::UnsupportedAction => "Unsupported Action",
            ErrorCode::UnsupportedPoolDirection => "Unsupported PoolDirection",
            ErrorCode::UnsupportedVersion => "Unsupported Action Version",
            ErrorCode::UnsupportedVaultProtocol => "Unsupported Vault Protocol",
            ErrorCode::IndexOutOfBound => "Index might out of bound, currently only support 30 addresses",
        }
    }
}

} // verus!
