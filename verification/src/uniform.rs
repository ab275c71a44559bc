//! The byte layout of the uniform block as the fragment shader reads it.
//!
//! The block is sixteen entries of sixteen bytes each. An entry is four
//! scalars of four bytes, least significant byte first, in the order
//! horizontal coordinate, vertical coordinate, time, strength. Sixteen bytes
//! is also the stride that the shader expects between two entries, so no
//! padding is needed.

use vstd::prelude::*;
use crate::light::{LightingMaterial, PackedLight, MAX_LIGHTS};
use crate::scalar::Scalar;

verus! {

/// Bytes of one scalar.
pub const SCALAR_SIZE: usize = 4;

/// Bytes from the start of one entry to the start of the next.
pub const ENTRY_STRIDE: usize = 16;

/// Bytes of the whole block.
pub const BLOCK_SIZE: usize = 256;

/// The four bytes of a scalar, least significant first.
pub open spec fn scalar_bytes(s: Scalar) -> Seq<u8> {
    seq![
        (s.bits % 256) as u8,
        ((s.bits / 0x100) % 256) as u8,
        ((s.bits / 0x1_0000) % 256) as u8,
        ((s.bits / 0x100_0000) % 256) as u8,
    ]
}

/// The sixteen bytes of one entry.
pub open spec fn entry_bytes(entry: PackedLight) -> Seq<u8> {
    scalar_bytes(entry.x) + scalar_bytes(entry.y) + scalar_bytes(entry.time) + scalar_bytes(
        entry.strength,
    )
}

/// The first `count` entries of a block, laid out one after the other.
pub open spec fn entries_bytes(block: Seq<PackedLight>, count: nat) -> Seq<u8> {
    Seq::new(count * ENTRY_STRIDE as nat, |k: int| entry_bytes(block[k / 16])[k % 16])
}

/// The bytes of a whole block.
pub open spec fn block_bytes(block: Seq<PackedLight>) -> Seq<u8> {
    entries_bytes(block, MAX_LIGHTS as nat)
}

/// The scalar that four bytes spell, least significant first.
pub open spec fn scalar_from_bytes(bytes: Seq<u8>) -> Scalar
    recommends
        bytes.len() == SCALAR_SIZE,
{
    Scalar {
        bits: (bytes[0] + 0x100 * bytes[1] + 0x1_0000 * bytes[2] + 0x100_0000 * bytes[3]) as u32,
    }
}

/// The entry that sixteen bytes spell.
pub open spec fn entry_from_bytes(bytes: Seq<u8>) -> PackedLight
    recommends
        bytes.len() == ENTRY_STRIDE,
{
    PackedLight {
        x: scalar_from_bytes(bytes.subrange(0, 4)),
        y: scalar_from_bytes(bytes.subrange(4, 8)),
        time: scalar_from_bytes(bytes.subrange(8, 12)),
        strength: scalar_from_bytes(bytes.subrange(12, 16)),
    }
}

/// Appends the four bytes of a scalar.
fn push_scalar(bytes: &mut Vec<u8>, s: Scalar)
    ensures
        final(bytes)@ == old(bytes)@ + scalar_bytes(s),
{
    let bits = s.bits;
    bytes.push((bits % 256) as u8);
    bytes.push(((bits / 0x100) % 256) as u8);
    bytes.push(((bits / 0x1_0000) % 256) as u8);
    bytes.push(((bits / 0x100_0000) % 256) as u8);
    proof {
        assert(bytes@ =~= old(bytes)@ + scalar_bytes(s));
    }
}

impl LightingMaterial {
    /// The uniform block as the bytes that are handed to the shader.
    pub fn uniform_bytes(&self) -> (bytes: Vec<u8>)
        ensures
            bytes@ == block_bytes(self.lights@),
            bytes@.len() == BLOCK_SIZE,
    {
        let mut bytes: Vec<u8> = Vec::new();
        let mut i: usize = 0;
        while i < MAX_LIGHTS
            invariant
                i <= MAX_LIGHTS,
                bytes@ == entries_bytes(self.lights@, i as nat),
            decreases MAX_LIGHTS - i,
        {
            let entry = self.lights[i];
            let ghost before = bytes@;
            push_scalar(&mut bytes, entry.x);
            push_scalar(&mut bytes, entry.y);
            push_scalar(&mut bytes, entry.time);
            push_scalar(&mut bytes, entry.strength);
            proof {
                assert(bytes@ =~= before + entry_bytes(entry));
                assert(bytes@ =~= entries_bytes(self.lights@, (i + 1) as nat));
            }
            i = i + 1;
        }
        bytes
    }
}

/// Four bytes of a scalar spell that scalar again.
pub proof fn lemma_scalar_bytes_round_trip(s: Scalar)
    ensures
        scalar_bytes(s).len() == SCALAR_SIZE,
        scalar_from_bytes(scalar_bytes(s)) == s,
{
}

/// Entry `index` of a block lies at byte `16 * index` of its layout and can
/// be read back from there unchanged, so the layout loses nothing and no
/// entry overlaps the next.
pub proof fn lemma_entry_lies_at_its_stride(block: Seq<PackedLight>, index: int)
    requires
        block.len() == MAX_LIGHTS,
        0 <= index < MAX_LIGHTS,
    ensures
        block_bytes(block).len() == BLOCK_SIZE,
        block_bytes(block).subrange(ENTRY_STRIDE * index, ENTRY_STRIDE * index + ENTRY_STRIDE)
            == entry_bytes(block[index]),
        entry_from_bytes(
            block_bytes(block).subrange(ENTRY_STRIDE * index, ENTRY_STRIDE * index + ENTRY_STRIDE),
        ) == block[index],
{
    let entry = block[index];
    let slice = block_bytes(block).subrange(16 * index, 16 * index + 16);
    assert(slice =~= entry_bytes(entry));
    assert(slice.subrange(0, 4) =~= scalar_bytes(entry.x));
    assert(slice.subrange(4, 8) =~= scalar_bytes(entry.y));
    assert(slice.subrange(8, 12) =~= scalar_bytes(entry.time));
    assert(slice.subrange(12, 16) =~= scalar_bytes(entry.strength));
    lemma_scalar_bytes_round_trip(entry.x);
    lemma_scalar_bytes_round_trip(entry.y);
    lemma_scalar_bytes_round_trip(entry.time);
    lemma_scalar_bytes_round_trip(entry.strength);
}

} // verus!
