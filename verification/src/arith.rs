//! Reading a random value as a number.
use vstd::prelude::*;

verus! {

/// 2 to the power 128.
pub open spec fn pow2_128() -> nat {
    u128::MAX as nat + 1
}

/// The number that a sequence of bytes spells with its lowest digit first.
pub open spec fn le_value(bytes: Seq<u8>) -> nat
    decreases bytes.len(),
{
    if bytes.len() == 0 {
        0
    } else {
        bytes[0] as nat + 256 * le_value(bytes.drop_first())
    }
}

/// 256 to the power `n`.
pub open spec fn pow256(n: nat) -> nat
    decreases n,
{
    if n == 0 {
        1
    } else {
        256 * pow256((n - 1) as nat)
    }
}

/// Sixteen bytes spell a number below 2^128.
pub proof fn lemma_pow256_16()
    ensures
        pow256(16) == pow2_128(),
{
    reveal_with_fuel(pow256, 17);
}

/// `pow256` grows with its argument.
pub proof fn lemma_pow256_monotonic(m: nat, n: nat)
    requires
        m <= n,
    ensures
        pow256(m) <= pow256(n),
        pow256(m) > 0,
    decreases n,
{
    if m < n {
        lemma_pow256_monotonic(m, (n - 1) as nat);
    } else if n > 0 {
        lemma_pow256_monotonic((m - 1) as nat, (n - 1) as nat);
    }
}

/// A sequence of `n` bytes spells a number below 256^n.
pub proof fn lemma_le_value_bound(bytes: Seq<u8>)
    ensures
        le_value(bytes) < pow256(bytes.len()),
    decreases bytes.len(),
{
    if bytes.len() > 0 {
        lemma_le_value_bound(bytes.drop_first());
    }
}

/// The number that the first sixteen of the 32 bytes spell, lowest digit first.
pub open spec fn le_u128(bytes: [u8; 32]) -> nat {
    le_value(bytes@.subrange(0, 16))
}

/// The number read from a random value is at least zero and below 2^128, so
/// that, divided by 2^128, it is a fraction of at least zero and less than one.
pub proof fn lemma_le_u128_bound(bytes: [u8; 32])
    ensures
        0 <= le_u128(bytes) < pow2_128(),
        le_u128(bytes) <= u128::MAX,
{
    lemma_le_value_bound(bytes@.subrange(0, 16));
    lemma_pow256_16();
}

/// Reads the first sixteen bytes as a little-endian number.
pub fn u128_from_le_prefix(bytes: &[u8; 32]) -> (value: u128)
    ensures
        value == le_u128(*bytes),
{
    let mut value: u128 = 0;
    let mut i: usize = 16;
    while i > 0
        invariant
            i <= 16,
            value == le_value(bytes@.subrange(i as int, 16)),
        decreases i,
    {
        let ghost rest = bytes@.subrange(i as int, 16);
        i = i - 1;
        proof {
            let more = bytes@.subrange(i as int, 16);
            assert(more.drop_first() =~= rest);
            assert(more[0] == bytes@[i as int]);
            lemma_le_value_bound(more);
            lemma_pow256_monotonic(more.len(), 16);
            lemma_pow256_16();
        }
        value = value * 256 + bytes[i] as u128;
    }
    value
}

} // verus!
