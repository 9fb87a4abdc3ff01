//! Little-endian numbers.

use vstd::prelude::*;

verus! {

/// The `count` lowest bytes of `value`, least significant first.
pub open spec fn le_bytes(value: nat, count: nat) -> Seq<u8>
    decreases count,
{
    if count == 0 {
        Seq::empty()
    } else {
        seq![(value % 256) as u8] + le_bytes(value / 256, (count - 1) as nat)
    }
}

/// Number whose bytes are `bytes`, least significant first.
pub open spec fn le_value(bytes: Seq<u8>) -> nat
    decreases bytes.len(),
{
    if bytes.len() == 0 {
        0
    } else {
        bytes[0] as nat + 256 * le_value(bytes.drop_first())
    }
}

/// `256` multiplied with itself `count` times.
pub open spec fn byte_range(count: nat) -> nat
    decreases count,
{
    if count == 0 {
        1
    } else {
        256 * byte_range((count - 1) as nat)
    }
}

/// Law: reading back the bytes of a number gives the number, if it fits.
pub proof fn law_le_bytes_read_back(value: nat, count: nat)
    requires
        value < byte_range(count),
    ensures
        le_bytes(value, count).len() == count,
        le_value(le_bytes(value, count)) == value,
    decreases count,
{
    if count > 0 {
        let rest = le_bytes(value / 256, (count - 1) as nat);
        law_le_bytes_read_back(value / 256, (count - 1) as nat);
        assert(le_bytes(value, count).drop_first() =~= rest);
    }
}

/// Law: a number is determined by its bytes.
pub proof fn law_le_value_writes_back(bytes: Seq<u8>)
    ensures
        le_bytes(le_value(bytes), bytes.len()) == bytes,
    decreases bytes.len(),
{
    if bytes.len() > 0 {
        law_le_value_writes_back(bytes.drop_first());
        assert(seq![bytes[0]] + bytes.drop_first() =~= bytes);
    }
}

/// Encode a 64-bit number least significant byte first.
pub fn u64_to_le_bytes(value: u64) -> (bytes: Vec<u8>)
    ensures
        bytes@ == le_bytes(value as nat, 8),
{
    let mut bytes: Vec<u8> = Vec::new();
    let mut rest: u64 = value;
    let mut written: usize = 0;
    while written < 8
        invariant
            written <= 8,
            bytes@ + le_bytes(rest as nat, (8 - written) as nat) == le_bytes(value as nat, 8),
        decreases 8 - written,
    {
        let ghost before = bytes@;
        let byte: u8 = (rest % 256) as u8;
        bytes.push(byte);
        proof {
            let tail = le_bytes(rest as nat / 256, (8 - written - 1) as nat);
            assert(before + (seq![byte] + tail) =~= before.push(byte) + tail);
        }
        rest = rest / 256;
        written = written + 1;
    }
    assert(bytes@ + le_bytes(rest as nat, 0) =~= bytes@);
    bytes
}

/// Decode the four bytes of `bytes` that start at `start`.
pub fn u32_from_le_bytes_at(bytes: &[u8], start: usize) -> (value: u32)
    requires
        start + 4 <= bytes@.len(),
    ensures
        value == le_value(bytes@.subrange(start as int, start + 4)),
{
    proof {
        let word = bytes@.subrange(start as int, start + 4);
        reveal_with_fuel(le_value, 5);
        assert(word.drop_first().drop_first().drop_first().drop_first().len() == 0);
    }
    let b0: u32 = bytes[start] as u32;
    let b1: u32 = bytes[start + 1] as u32;
    let b2: u32 = bytes[start + 2] as u32;
    let b3: u32 = bytes[start + 3] as u32;
    b0 + 256 * (b1 + 256 * (b2 + 256 * b3))
}

/// Law: a byte counts 256 times as much as the one before it, and the first one
/// counts once.
pub proof fn law_each_byte_counts_256_times_the_one_before(bytes: Seq<u8>, next: u8)
    ensures
        le_value(Seq::empty()) == 0,
        le_value(seq![next]) == next,
        le_value(seq![next] + bytes) == next + 256 * le_value(bytes),
        le_value(bytes.push(next)) == le_value(bytes) + next * byte_range(bytes.len()),
        byte_range(0) == 1,
        byte_range(bytes.len() + 1) == 256 * byte_range(bytes.len()),
    decreases bytes.len(),
{
    assert((seq![next] + bytes).drop_first() =~= bytes);
    assert(seq![next].drop_first() =~= Seq::<u8>::empty());
    if bytes.len() == 0 {
        assert(bytes.push(next) =~= seq![next]);
    } else {
        let rest = bytes.drop_first();
        law_each_byte_counts_256_times_the_one_before(rest, next);
        assert(bytes.push(next).drop_first() =~= rest.push(next));
        let range = byte_range(rest.len());
        assert(256 * (le_value(rest) + next * range) == 256 * le_value(rest) + next * (256 * range))
            by (nonlinear_arith);
    }
}

} // verus!
