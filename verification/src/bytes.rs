//! Byte layout of the values that are copied into GPU memory.
//!
//! The GPU reads constants and vertices as the bytes the CPU wrote. Those
//! bytes are stated here, least significant byte first, so that what a buffer
//! holds after a write can be said exactly.

use vstd::prelude::*;

verus! {

/// The four bytes of `value`, least significant first.
pub open spec fn spec_u32_le(value: u32) -> Seq<u8> {
    seq![
        (value % 0x100) as u8,
        ((value / 0x100) % 0x100) as u8,
        ((value / 0x1_0000) % 0x100) as u8,
        (value / 0x100_0000) as u8,
    ]
}

/// The value whose four bytes, least significant first, are `bytes`.
pub open spec fn spec_u32_from_le(bytes: Seq<u8>) -> u32
    recommends
        bytes.len() == 4,
{
    (bytes[0] + bytes[1] * 0x100 + bytes[2] * 0x1_0000 + bytes[3] * 0x100_0000) as u32
}

/// The bytes of each value of `values` in turn.
pub open spec fn spec_u32s_le(values: Seq<u32>) -> Seq<u8>
    decreases values.len(),
{
    if values.len() == 0 {
        Seq::<u8>::empty()
    } else {
        spec_u32s_le(values.drop_last()) + spec_u32_le(values.last())
    }
}

/// Reading the bytes of a value back gives the value.
pub proof fn lemma_u32_le_round_trip(value: u32)
    ensures
        spec_u32_le(value).len() == 4,
        spec_u32_from_le(spec_u32_le(value)) == value,
{
}

/// Every value takes four bytes.
pub proof fn lemma_u32s_le_len(values: Seq<u32>)
    ensures
        spec_u32s_le(values).len() == 4 * values.len(),
    decreases values.len(),
{
    if values.len() > 0 {
        lemma_u32s_le_len(values.drop_last());
    }
}

/// Appends the four bytes of `value`, least significant first.
pub fn push_u32_le(bytes: &mut Vec<u8>, value: u32)
    ensures
        final(bytes)@ == old(bytes)@ + spec_u32_le(value),
{
    let ghost before = bytes@;
    bytes.push((value % 0x100) as u8);
    bytes.push(((value / 0x100) % 0x100) as u8);
    bytes.push(((value / 0x1_0000) % 0x100) as u8);
    bytes.push((value / 0x100_0000) as u8);
    proof {
        assert(bytes@ =~= before + spec_u32_le(value));
    }
}

/// The bytes of each value of `words` in turn, least significant byte first.
pub fn u32s_to_le(words: &Vec<u32>) -> (bytes: Vec<u8>)
    ensures
        bytes@ == spec_u32s_le(words@),
        bytes@.len() == 4 * words@.len(),
{
    let mut bytes: Vec<u8> = Vec::new();
    let mut i: usize = 0;
    while i < words.len()
        invariant
            i <= words@.len(),
            bytes@ == spec_u32s_le(words@.subrange(0, i as int)),
        decreases words@.len() - i,
    {
        push_u32_le(&mut bytes, words[i]);
        proof {
            let next = words@.subrange(0, i + 1);
            assert(next.drop_last() =~= words@.subrange(0, i as int));
            assert(next.last() == words@[i as int]);
        }
        i = i + 1;
    }
    proof {
        assert(words@.subrange(0, words@.len() as int) =~= words@);
        lemma_u32s_le_len(words@);
    }
    bytes
}

/// Reads the value whose bytes start at `offset`, least significant first.
pub fn read_u32_le(bytes: &Vec<u8>, offset: usize) -> (value: u32)
    requires
        offset + 4 <= bytes.len(),
    ensures
        value == spec_u32_from_le(bytes@.subrange(offset as int, offset + 4)),
{
    let b0: u32 = bytes[offset] as u32;
    let b1: u32 = bytes[offset + 1] as u32;
    let b2: u32 = bytes[offset + 2] as u32;
    let b3: u32 = bytes[offset + 3] as u32;
    b0 + b1 * 0x100 + b2 * 0x1_0000 + b3 * 0x100_0000
}

} // verus!
