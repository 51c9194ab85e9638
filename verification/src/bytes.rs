//! Big-endian numbers.

use vstd::prelude::*;

verus! {

/// The number that `bytes` spell in base 256, most significant byte first.
pub open spec fn be_value(bytes: Seq<u8>) -> nat
    decreases bytes.len(),
{
    if bytes.len() == 0 {
        0
    } else {
        be_value(bytes.drop_last()) * 256 + bytes.last() as nat
    }
}

/// The `len` least significant base-256 digits of `value`, most significant digit first.
pub open spec fn be_bytes(value: nat, len: nat) -> Seq<u8>
    decreases len,
{
    if len == 0 {
        Seq::empty()
    } else {
        be_bytes(value / 256, (len - 1) as nat).push((value % 256) as u8)
    }
}

/// 256 to the power of `n`.
pub open spec fn pow256(n: nat) -> nat
    decreases n,
{
    if n == 0 {
        1
    } else {
        pow256((n - 1) as nat) * 256
    }
}

/// A number spelled out and read back is the same number, and the other way round.
pub proof fn law_be_round_trip(bytes: Seq<u8>, value: nat)
    ensures
        be_bytes(be_value(bytes), bytes.len()) == bytes,
        value < pow256(bytes.len()) ==> be_value(be_bytes(value, bytes.len())) == value,
    decreases bytes.len(),
{
    if bytes.len() > 0 {
        let head = bytes.drop_last();
        law_be_round_trip(head, value / 256);
        assert(be_value(bytes) / 256 == be_value(head));
        assert(be_value(bytes) % 256 == bytes.last());
        assert(be_bytes(be_value(bytes), bytes.len()) =~= head.push(bytes.last()));
        assert(head.push(bytes.last()) =~= bytes);
        let spelled = be_bytes(value / 256, head.len());
        assert(be_bytes(value, bytes.len()) == spelled.push((value % 256) as u8));
        assert(spelled.push((value % 256) as u8).drop_last() =~= spelled);
    }
}

pub(crate) proof fn lemma_be_bytes_len(value: nat, len: nat)
    ensures
        be_bytes(value, len).len() == len,
    decreases len,
{
    if len > 0 {
        lemma_be_bytes_len(value / 256, (len - 1) as nat);
    }
}

pub(crate) proof fn lemma_be_value_bound(bytes: Seq<u8>)
    ensures
        be_value(bytes) < pow256(bytes.len()),
    decreases bytes.len(),
{
    if bytes.len() > 0 {
        lemma_be_value_bound(bytes.drop_last());
    }
}

pub(crate) proof fn lemma_pow256_u64()
    ensures
        pow256(8) == u64::MAX + 1,
        forall|n: nat| n <= 8 ==> #[trigger] pow256(n) <= pow256(8),
{
    reveal_with_fuel(pow256, 9);
    assert(pow256(8) == u64::MAX + 1);
    assert forall|n: nat| n <= 8 implies #[trigger] pow256(n) <= pow256(8) by {
        assert(n == 0 || n == 1 || n == 2 || n == 3 || n == 4 || n == 5 || n == 6 || n == 7 || n
            == 8);
    }
}

/// Reads a big-endian 64-bit number.
pub fn u64_from_be_bytes(bytes: &[u8]) -> (value: u64)
    requires
        bytes@.len() == 8,
    ensures
        value == be_value(bytes@),
{
    let mut value: u64 = 0;
    let mut i: usize = 0;
    while i < 8
        invariant
            i <= 8,
            bytes@.len() == 8,
            value == be_value(bytes@.take(i as int)),
        decreases 8 - i,
    {
        proof {
            lemma_pow256_u64();
            lemma_be_value_bound(bytes@.take(i + 1));
            assert(bytes@.take(i + 1).drop_last() =~= bytes@.take(i as int));
        }
        value = value * 256 + bytes[i] as u64;
        i = i + 1;
    }
    assert(bytes@.take(8) =~= bytes@);
    value
}

/// Eight bytes spell the number in which each of them counts 256 times as much as the next one.
pub proof fn law_be_value_of_eight_bytes(bytes: Seq<u8>)
    requires
        bytes.len() == 8,
    ensures
        be_value(bytes) == bytes[0] * 0x100_0000_0000_0000 + bytes[1] * 0x1_0000_0000_0000
            + bytes[2] * 0x100_0000_0000 + bytes[3] * 0x1_0000_0000 + bytes[4] * 0x100_0000
            + bytes[5] * 0x1_0000 + bytes[6] * 0x100 + bytes[7],
        be_value(bytes) <= u64::MAX,
{
    assert(bytes =~= bytes.take(8));
    assert(be_value(bytes.take(0)) == 0);
    lemma_be_value_step(bytes, 0);
    lemma_be_value_step(bytes, 1);
    lemma_be_value_step(bytes, 2);
    lemma_be_value_step(bytes, 3);
    lemma_be_value_step(bytes, 4);
    lemma_be_value_step(bytes, 5);
    lemma_be_value_step(bytes, 6);
    lemma_be_value_step(bytes, 7);
}

proof fn lemma_be_value_step(bytes: Seq<u8>, i: int)
    requires
        0 <= i < bytes.len(),
    ensures
        be_value(bytes.take(i + 1)) == be_value(bytes.take(i)) * 256 + bytes[i],
{
    assert(bytes.take(i + 1).drop_last() =~= bytes.take(i));
}

} // verus!
