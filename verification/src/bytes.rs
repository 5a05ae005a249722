//! Byte strings read as natural numbers, and natural numbers written as byte strings.
use vstd::arithmetic::power2::pow2;
use vstd::prelude::*;

verus! {

/// The number that `bytes` spells with its least significant byte first.
pub open spec fn le_nat(bytes: Seq<u8>) -> nat
    decreases bytes.len(),
{
    if bytes.len() == 0 {
        0
    } else {
        bytes[0] as nat + 256 * le_nat(bytes.drop_first())
    }
}

/// The number that `bytes` spells with its most significant byte first.
pub open spec fn be_nat(bytes: Seq<u8>) -> nat
    decreases bytes.len(),
{
    if bytes.len() == 0 {
        0
    } else {
        256 * be_nat(bytes.drop_last()) + bytes.last() as nat
    }
}

/// The `len` least significant bytes of `value`, least significant first.
pub open spec fn le_bytes(value: nat, len: nat) -> Seq<u8>
    decreases len,
{
    if len == 0 {
        Seq::empty()
    } else {
        seq![(value % 256) as u8] + le_bytes(value / 256, (len - 1) as nat)
    }
}

/// A string of `n` bytes spells a number below `2^(8 * n)`.
pub proof fn lemma_le_nat_bound(bytes: Seq<u8>)
    ensures
        le_nat(bytes) < pow2(8 * bytes.len()),
    decreases bytes.len(),
{
    if bytes.len() == 0 {
        vstd::arithmetic::power2::lemma2_to64();
    } else {
        lemma_le_nat_bound(bytes.drop_first());
        vstd::arithmetic::power2::lemma2_to64();
        vstd::arithmetic::power2::lemma_pow2_adds(8, 8 * bytes.drop_first().len());
        assert(pow2(8) == 256);
    }
}

/// Reading back what [`le_bytes`] wrote gives the number that was written.
pub proof fn lemma_le_round_trip(value: nat, len: nat)
    requires
        value < pow2(8 * len),
    ensures
        le_bytes(value, len).len() == len,
        le_nat(le_bytes(value, len)) == value,
    decreases len,
{
    vstd::arithmetic::power2::lemma2_to64();
    if len > 0 {
        let rest = (len - 1) as nat;
        vstd::arithmetic::power2::lemma_pow2_adds(8, 8 * rest);
        assert(pow2(8) == 256);
        lemma_le_round_trip(value / 256, rest);
        assert(le_bytes(value, len).drop_first() =~= le_bytes(value / 256, rest));
    }
}

/// Writes `value` as eight bytes, least significant first.
pub fn u64_le_bytes(value: u64) -> (bytes: Vec<u8>)
    ensures
        bytes@ == le_bytes(value as nat, 8),
        bytes@.len() == 8,
        le_nat(bytes@) == value,
{
    let mut bytes: Vec<u8> = Vec::new();
    let mut rest: u64 = value;
    proof {
        assert(value < pow2(64)) by {
            vstd::arithmetic::power2::lemma2_to64();
        }
        lemma_le_round_trip(value as nat, 8);
    }
    for i in 0usize..8
        invariant
            bytes@.len() == i,
            bytes@ + le_bytes(rest as nat, (8 - i) as nat) == le_bytes(value as nat, 8),
    {
        let ghost before = bytes@;
        let ghost tail = le_bytes((rest / 256) as nat, (7 - i) as nat);
        bytes.push((rest % 256) as u8);
        assert(bytes@ + tail =~= before + le_bytes(rest as nat, (8 - i) as nat));
        rest = rest / 256;
    }
    assert(bytes@ =~= bytes@ + le_bytes(rest as nat, 0));
    bytes
}

/// Reads sixteen bytes as a number, least significant byte first.
pub fn u128_from_le(bytes: &[u8; 16]) -> (value: u128)
    ensures
        value == le_nat(bytes@),
{
    let mut value: u128 = 0;
    let mut i: usize = 16;
    proof {
        assert(bytes@.skip(16) =~= Seq::<u8>::empty());
    }
    while i > 0
        invariant
            i <= 16,
            value == le_nat(bytes@.skip(i as int)),
        decreases i,
    {
        i = i - 1;
        proof {
            let suffix = bytes@.skip(i as int);
            assert(suffix.drop_first() =~= bytes@.skip(i + 1));
            assert(suffix[0] == bytes@[i as int]);
            lemma_le_nat_bound(suffix);
            lemma_suffix_fits(suffix.len());
        }
        value = bytes[i] as u128 + 256 * value;
    }
    assert(bytes@.skip(0) =~= bytes@);
    value
}

proof fn lemma_suffix_fits(len: nat)
    requires
        len <= 16,
    ensures
        pow2(8 * len) <= u128::MAX + 1,
{
    vstd::arithmetic::power2::lemma_pow2_adds(64, 64);
    vstd::arithmetic::power2::lemma2_to64();
    assert(pow2(128) == 0x1_0000_0000_0000_0000 * 0x1_0000_0000_0000_0000);
    if 8 * len < 128 {
        vstd::arithmetic::power2::lemma_pow2_strictly_increases(8 * len, 128);
    }
}

/// Read with the least significant byte first, a byte stands for itself, and what follows some
/// bytes counts as many times `256` as there are of them. No byte is passed over.
pub proof fn law_le_nat_is_positional(byte: u8, low: Seq<u8>, high: Seq<u8>)
    ensures
        le_nat(seq![byte]) == byte,
        le_nat(low + high) == le_nat(low) + pow2(8 * low.len()) * le_nat(high),
    decreases low.len(),
{
    assert(le_nat(seq![byte].drop_first()) == 0);
    vstd::arithmetic::power2::lemma2_to64();
    if low.len() == 0 {
        assert(low + high =~= high);
        assert(pow2(0) * le_nat(high) == le_nat(high));
    } else {
        let rest = low.drop_first();
        law_le_nat_is_positional(byte, rest, high);
        assert((low + high).drop_first() =~= rest + high);
        vstd::arithmetic::power2::lemma_pow2_adds(8, 8 * rest.len());
        let power = pow2(8 * rest.len()) as int;
        let tail = le_nat(high) as int;
        assert(256 * (power * tail) == (256 * power) * tail) by (nonlinear_arith);
    }
}

/// Read with the most significant byte first, a byte stands for itself, and what precedes some
/// bytes counts as many times `256` as there are of them. No byte is passed over.
pub proof fn law_be_nat_is_positional(byte: u8, high: Seq<u8>, low: Seq<u8>)
    ensures
        be_nat(seq![byte]) == byte,
        be_nat(high + low) == be_nat(high) * pow2(8 * low.len()) + be_nat(low),
    decreases low.len(),
{
    assert(be_nat(seq![byte].drop_last()) == 0);
    vstd::arithmetic::power2::lemma2_to64();
    if low.len() == 0 {
        assert(high + low =~= high);
        assert(be_nat(high) * pow2(0) == be_nat(high));
    } else {
        let rest = low.drop_last();
        law_be_nat_is_positional(byte, high, rest);
        assert((high + low).drop_last() =~= high + rest);
        vstd::arithmetic::power2::lemma_pow2_adds(8, 8 * rest.len());
        let power = pow2(8 * rest.len()) as int;
        let head = be_nat(high) as int;
        assert(256 * (head * power) == head * (256 * power)) by (nonlinear_arith);
    }
}

/// Byte strings of one length that spell the same number are the same, so a number that fits has
/// one spelling.
pub proof fn law_le_nat_is_injective(one: Seq<u8>, other: Seq<u8>)
    requires
        one.len() == other.len(),
        le_nat(one) == le_nat(other),
    ensures
        one == other,
    decreases one.len(),
{
    if one.len() != 0 {
        law_le_nat_is_injective(one.drop_first(), other.drop_first());
        assert(one =~= seq![one[0]] + one.drop_first());
        assert(other =~= seq![other[0]] + other.drop_first());
    } else {
        assert(one =~= other);
    }
}

/// The eight bytes of a 64-bit number are the only ones that spell it.
pub proof fn law_le_bytes_spell_u64(value: u64, bytes: Seq<u8>)
    ensures
        bytes == le_bytes(value as nat, 8) <==> bytes.len() == 8 && le_nat(bytes) == value,
{
    assert(value < pow2(64)) by {
        vstd::arithmetic::power2::lemma2_to64();
    }
    lemma_le_round_trip(value as nat, 8);
    if bytes.len() == 8 && le_nat(bytes) == value {
        law_le_nat_is_injective(bytes, le_bytes(value as nat, 8));
    }
}

} // verus!
