//! The block of eight bytes the fragment stage reads: the number of frames,
//! then the playback position, each as four bytes, least significant first.

use vstd::prelude::*;

verus! {

/// Length of the uniform block in bytes.
pub const UNIFORM_LEN: usize = 8;

/// The four bytes of `value`, least significant first.
pub open spec fn le_bytes(value: u32) -> Seq<u8> {
    seq![
        (value as int % 256) as u8,
        (value as int / 256 % 256) as u8,
        (value as int / 65536 % 256) as u8,
        (value as int / 16777216) as u8,
    ]
}

/// The value whose bytes, least significant first, are `bytes[0..4]`.
pub open spec fn le_value(bytes: Seq<u8>) -> int
    recommends
        bytes.len() >= 4,
{
    bytes[0] as int + 256 * (bytes[1] as int) + 65536 * (bytes[2] as int) + 16777216 * (
    bytes[3] as int)
}

/// The uniform block for a frame count and an encoded position.
pub open spec fn uniform_block(total_frame: u32, position_bits: u32) -> Seq<u8> {
    le_bytes(total_frame) + le_bytes(position_bits)
}

/// Appends the four bytes of `value` to `out`, least significant first.
pub fn push_le_bytes(out: &mut Vec<u8>, value: u32)
    ensures
        final(out)@ == old(out)@ + le_bytes(value),
{
    let b0: u8 = (value % 256) as u8;
    let b1: u8 = (value / 256 % 256) as u8;
    let b2: u8 = (value / 65536 % 256) as u8;
    let b3: u8 = (value / 16777216) as u8;
    out.push(b0);
    out.push(b1);
    out.push(b2);
    out.push(b3);
    assert(out@ =~= old(out)@ + le_bytes(value));
}

/// Builds the uniform block: `total_frame`, then `position_bits`.
pub fn encode_uniform(total_frame: u32, position_bits: u32) -> (block: Vec<u8>)
    ensures
        block@ == uniform_block(total_frame, position_bits),
        block@.len() == UNIFORM_LEN,
{
    let mut block: Vec<u8> = Vec::new();
    push_le_bytes(&mut block, total_frame);
    push_le_bytes(&mut block, position_bits);
    assert(block@ =~= uniform_block(total_frame, position_bits));
    block
}

/// Reading back the bytes of a value gives the value: the encoding loses
/// nothing, so the fragment stage sees exactly what was written.
pub proof fn lemma_le_bytes_round_trip(value: u32)
    ensures
        le_bytes(value).len() == 4,
        le_value(le_bytes(value)) == value,
{
}

/// Both halves of a uniform block can be read back from it.
pub proof fn lemma_uniform_block_fields(total_frame: u32, position_bits: u32)
    ensures
        uniform_block(total_frame, position_bits).len() == 8,
        uniform_block(total_frame, position_bits).subrange(0, 4) == le_bytes(total_frame),
        uniform_block(total_frame, position_bits).subrange(4, 8) == le_bytes(position_bits),
{
    let block = uniform_block(total_frame, position_bits);
    assert(block.subrange(0, 4) =~= le_bytes(total_frame));
    assert(block.subrange(4, 8) =~= le_bytes(position_bits));
}

} // verus!
