//! Byte-level helpers for the fixed layouts of lending state.
use vstd::prelude::*;
use vstd::bytes::{
    spec_u128_from_le_bytes, spec_u128_to_le_bytes, spec_u64_from_le_bytes, spec_u64_to_le_bytes,
    u128_from_le_bytes, u128_to_le_bytes, u64_from_le_bytes, u64_to_le_bytes,
};
use crate::decimal::Decimal;
use crate::error::LendingError;
use crate::pubkey::Pubkey;
use crate::uint::{limb2, lemma_u192_unique};

verus! {

/// The byte a `bool` is stored as.
pub open spec fn bool_byte(b: bool) -> u8 {
    if b {
        1
    } else {
        0
    }
}

/// Little-endian bytes of a `u64`.
pub open spec fn le64(x: u64) -> Seq<u8> {
    spec_u64_to_le_bytes(x)
}

/// Little-endian bytes of the scaled value of a decimal that fits a `u128`.
pub open spec fn le128(x: nat) -> Seq<u8> {
    spec_u128_to_le_bytes(x as u128)
}

/// The little-endian encodings of `u64` and `u128` have their widths and
/// decode back to the encoded value.
pub proof fn lemma_le_roundtrips()
    ensures
        forall|x: u64| #[trigger] le64(x).len() == 8 && spec_u64_from_le_bytes(le64(x)) == x,
        forall|x: u128|
            #[trigger] spec_u128_to_le_bytes(x).len() == 16 && spec_u128_from_le_bytes(
                spec_u128_to_le_bytes(x),
            ) == x,
        forall|s: Seq<u8>| s.len() == 8 ==> #[trigger] le64(spec_u64_from_le_bytes(s)) == s,
        forall|s: Seq<u8>|
            s.len() == 16 ==> #[trigger] spec_u128_to_le_bytes(spec_u128_from_le_bytes(s)) == s,
{
    vstd::bytes::lemma_auto_spec_u64_to_from_le_bytes();
    vstd::bytes::lemma_auto_spec_u128_to_from_le_bytes();
}

/// Append `bytes` to `data`.
pub fn push_bytes(data: &mut Vec<u8>, bytes: &[u8])
    ensures
        final(data)@ == old(data)@ + bytes@,
{
    let mut i: usize = 0;
    while i < bytes.len()
        invariant
            0 <= i <= bytes@.len(),
            data@ == old(data)@ + bytes@.subrange(0, i as int),
        decreases bytes@.len() - i,
    {
        data.push(bytes[i]);
        i = i + 1;
        assert(data@ =~= old(data)@ + bytes@.subrange(0, i as int));
    }
    assert(bytes@.subrange(0, bytes@.len() as int) =~= bytes@);
}

/// Append the little-endian bytes of a `u64`.
pub fn push_u64(data: &mut Vec<u8>, x: u64)
    ensures
        final(data)@ == old(data)@ + le64(x),
{
    let b = u64_to_le_bytes(x);
    push_bytes(data, b.as_slice());
}

/// Append a decimal's scaled value as 16 little-endian bytes. The value must
/// fit a `u128`.
pub fn push_decimal(data: &mut Vec<u8>, d: Decimal)
    requires
        d@ < limb2(),
    ensures
        final(data)@ == old(data)@ + le128(d@),
{
    let v = d.to_scaled_val().unwrap();
    let b = u128_to_le_bytes(v);
    push_bytes(data, b.as_slice());
}

/// Append an address.
pub fn push_key(data: &mut Vec<u8>, k: &Pubkey)
    ensures
        final(data)@ == old(data)@ + k@,
{
    push_bytes(data, k.0.as_slice());
}

/// Copy `bytes` over the front of `output`.
pub fn write_prefix(output: &mut [u8], bytes: &[u8])
    requires
        bytes@.len() <= old(output)@.len(),
    ensures
        final(output)@.len() == old(output)@.len(),
        final(output)@.subrange(0, bytes@.len() as int) == bytes@,
        final(output)@.subrange(bytes@.len() as int, old(output)@.len() as int) == old(output)@.subrange(bytes@.len() as int, old(output)@.len() as int),
{
    let mut i: usize = 0;
    while i < bytes.len()
        invariant
            0 <= i <= bytes@.len(),
            bytes@.len() <= output@.len(),
            output@.len() == old(output)@.len(),
            forall|j: int| 0 <= j < i ==> output@[j] == bytes@[j],
            forall|j: int| i <= j < output@.len() ==> output@[j] == old(output)@[j],
        decreases bytes@.len() - i,
    {
        output[i] = bytes[i];
        i = i + 1;
    }
    assert(output@.subrange(0, bytes@.len() as int) =~= bytes@);
    assert(output@.subrange(bytes@.len() as int, old(output)@.len() as int) =~= old(output)@.subrange(bytes@.len() as int, old(output)@.len() as int));
}

/// Copy `bytes` into `output` at `offset`, leaving every other byte as it was.
pub fn write_at(output: &mut [u8], offset: usize, bytes: &[u8])
    requires
        offset + bytes@.len() <= old(output)@.len(),
    ensures
        final(output)@.len() == old(output)@.len(),
        final(output)@.subrange(offset as int, offset + bytes@.len()) == bytes@,
        forall|k: int|
            0 <= k < old(output)@.len() && !(offset <= k < offset + bytes@.len())
                ==> #[trigger] final(output)@[k] == old(output)@[k],
{
    let n: usize = bytes.len();
    let total: usize = output.len();
    let mut i: usize = 0;
    while i < n
        invariant
            0 <= i <= n,
            n == bytes@.len(),
            total == output@.len(),
            offset + n <= total,
            output@.len() == old(output)@.len(),
            forall|j: int| 0 <= j < i ==> output@[offset + j] == bytes@[j],
            forall|k: int|
                0 <= k < output@.len() && !(offset <= k < offset + i) ==> #[trigger] output@[k]
                    == old(output)@[k],
        decreases n - i,
    {
        output[offset + i] = bytes[i];
        i = i + 1;
    }
    assert(output@.subrange(offset as int, offset + n) =~= bytes@);
}

/// Outside the range a write touched, every range of bytes is unchanged.
pub proof fn lemma_untouched(new: Seq<u8>, old: Seq<u8>, lo: int, hi: int, a: int, b: int)
    requires
        new.len() == old.len(),
        forall|k: int| 0 <= k < old.len() && !(lo <= k < hi) ==> #[trigger] new[k] == old[k],
        0 <= a <= b <= old.len(),
        b <= lo || hi <= a,
    ensures
        new.subrange(a, b) == old.subrange(a, b),
{
    assert(new.subrange(a, b) =~= old.subrange(a, b));
}

/// Read a `bool` stored as 0 or 1; any other byte is invalid.
pub fn unpack_bool(b: u8) -> (r: Result<bool, LendingError>)
    ensures
        b == 0 ==> r == Ok::<bool, LendingError>(false),
        b == 1 ==> r == Ok::<bool, LendingError>(true),
        b > 1 ==> r == Err::<bool, LendingError>(LendingError::InvalidAccountData),
{
    match b {
        0 => Ok(false),
        1 => Ok(true),
        _ => Err(LendingError::InvalidAccountData),
    }
}

/// Read a `u64` from 8 little-endian bytes at `offset`.
pub fn read_u64(input: &[u8], offset: usize) -> (r: u64)
    requires
        offset + 8 <= input@.len(),
    ensures
        le64(r) == input@.subrange(offset as int, offset + 8),
{
    let n: usize = input.len();
    assert(offset + 8 <= n);
    let r = u64_from_le_bytes(&input[offset..offset + 8]);
    proof {
        lemma_le_roundtrips();
    }
    r
}

/// Read a decimal's scaled value from 16 little-endian bytes at `offset`.
pub fn read_decimal(input: &[u8], offset: usize) -> (r: Decimal)
    requires
        offset + 16 <= input@.len(),
    ensures
        r@ < limb2(),
        le128(r@) == input@.subrange(offset as int, offset + 16),
{
    let n: usize = input.len();
    assert(offset + 16 <= n);
    let v = u128_from_le_bytes(&input[offset..offset + 16]);
    proof {
        lemma_le_roundtrips();
    }
    Decimal::from_scaled_val(v)
}

/// Read an address from 32 bytes at `offset`.
pub fn read_key(input: &[u8], offset: usize) -> (r: Pubkey)
    requires
        offset + 32 <= input@.len(),
    ensures
        r@ == input@.subrange(offset as int, offset + 32),
{
    let n: usize = input.len();
    assert(offset + 32 <= n);
    let mut k = [0u8; 32];
    let mut i: usize = 0;
    while i < 32
        invariant
            0 <= i <= 32,
            n == input@.len(),
            offset + 32 <= n,
            forall|j: int| 0 <= j < i ==> k@[j] == input@[offset + j],
        decreases 32 - i,
    {
        k[i] = input[offset + i];
        i = i + 1;
    }
    assert(k@ =~= input@.subrange(offset as int, offset + 32));
    Pubkey(k)
}

/// `s` splits after `n` bytes into `a` and `b` exactly when it is `a + b`.
pub proof fn lemma_split(s: Seq<u8>, a: Seq<u8>, b: Seq<u8>)
    requires
        s.len() == a.len() + b.len(),
    ensures
        (s == a + b) <==> (s.subrange(0, a.len() as int) == a && s.subrange(
            a.len() as int,
            s.len() as int,
        ) == b),
{
    if s == a + b {
        assert(s.subrange(0, a.len() as int) =~= a);
        assert(s.subrange(a.len() as int, s.len() as int) =~= b);
    }
    if s.subrange(0, a.len() as int) == a && s.subrange(a.len() as int, s.len() as int) == b {
        assert(s =~= a + b);
    }
}

/// Two concatenations with equally long first parts are equal only part by part.
pub proof fn lemma_add_cancel(a1: Seq<u8>, b1: Seq<u8>, a2: Seq<u8>, b2: Seq<u8>)
    requires
        a1.len() == a2.len(),
        a1 + b1 == a2 + b2,
    ensures
        a1 == a2,
        b1 == b2,
{
    lemma_split(a1 + b1, a1, b1);
    lemma_split(a2 + b2, a2, b2);
}

pub proof fn lemma_key_eq(a: [u8; 32], b: [u8; 32])
    requires
        a@ == b@,
    ensures
        a == b,
{
    assert forall|i: int| 0 <= i < 32 implies a[i] == b[i] by {
        assert(a@[i] == b@[i]);
    }
    assert(a =~= b);
}

pub proof fn lemma_u64_eq(a: u64, b: u64)
    requires
        le64(a) == le64(b),
    ensures
        a == b,
{
    vstd::bytes::lemma_auto_spec_u64_to_from_le_bytes();
    assert(spec_u64_from_le_bytes(spec_u64_to_le_bytes(a)) == a);
    assert(spec_u64_from_le_bytes(spec_u64_to_le_bytes(b)) == b);
}

pub proof fn lemma_decimal_eq(a: crate::decimal::Decimal, b: crate::decimal::Decimal)
    requires
        a@ < limb2(),
        b@ < limb2(),
        le128(a@) == le128(b@),
    ensures
        a == b,
{
    vstd::bytes::lemma_auto_spec_u128_to_from_le_bytes();
    assert(spec_u128_to_le_bytes(a@ as u128).len() == 16);
    assert(spec_u128_to_le_bytes(b@ as u128).len() == 16);
    assert((a@ as u128) == (b@ as u128));
    lemma_u192_unique(a.0, b.0);
}

/// Splitting a range of `s` at `j` splits its bytes.
pub proof fn lemma_join(s: Seq<u8>, i: int, j: int, k: int)
    requires
        0 <= i <= j <= k <= s.len(),
    ensures
        s.subrange(i, k) == s.subrange(i, j) + s.subrange(j, k),
{
    assert(s.subrange(i, k) =~= s.subrange(i, j) + s.subrange(j, k));
}

/// A one-byte range holds that byte.
pub proof fn lemma_byte(s: Seq<u8>, i: int)
    requires
        0 <= i < s.len(),
    ensures
        s.subrange(i, i + 1) == seq![s[i]],
{
    assert(s.subrange(i, i + 1) =~= seq![s[i]]);
}

/// Append one byte.
pub fn push_byte(data: &mut Vec<u8>, b: u8)
    ensures
        final(data)@ == old(data)@ + seq![b],
{
    data.push(b);
    assert(data@ =~= old(data)@ + seq![b]);
}

} // verus!
