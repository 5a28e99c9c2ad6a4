//! The shared uniform block and its GPU byte layout.
//!
//! One small fixed-layout record carries the host input state (pause flag,
//! pointer button, pointer position) to every pass. It is created once with
//! zeroed contents and from then on only ever overwritten wholesale: a
//! single 16-byte write replaces the entire record, so a pass recorded
//! after the write observes every field of the new record and none of the
//! old one.
//!
//! The GPU-side layout is four little-endian 32-bit words, 16 bytes in all
//! (16-byte alignment is what the uniform block on the shader side
//! expects). The pointer position is a pair of IEEE-754 single-precision
//! values; this layer never does arithmetic on them, so it carries them as
//! their 32-bit bit patterns.

use vstd::bytes::lemma_auto_spec_u32_to_from_le_bytes;
use vstd::bytes::spec_u32_from_le_bytes;
use vstd::bytes::spec_u32_to_le_bytes;
use vstd::bytes::u32_to_le_bytes;
use vstd::prelude::*;

verus! {

/// Byte size of the encoded uniform record.
pub const UNIFORMS_SIZE: u64 = 16;

/// Host input state visible to every GPU pass of a frame.
///
/// Field order is the buffer layout. Boolean flags travel as `u32` words
/// because the record is raw shader memory with no one-byte booleans.
#[derive(Clone, Copy, PartialEq, Eq, Structural, Debug)]
pub struct Uniforms {
    /// `1` when the simulation is paused, else `0`.
    pub paused: u32,
    /// `1` while the primary pointer button is held, else `0`.
    pub mouse_down: u32,
    /// Bit pattern of the pointer x coordinate in normalized device space.
    pub mouse_pos_last_x: u32,
    /// Bit pattern of the pointer y coordinate in normalized device space.
    pub mouse_pos_last_y: u32,
}

/// The 16-byte little-endian image of a uniform record.
pub open spec fn spec_encode(u: Uniforms) -> Seq<u8> {
    spec_u32_to_le_bytes(u.paused) + spec_u32_to_le_bytes(u.mouse_down) + spec_u32_to_le_bytes(
        u.mouse_pos_last_x,
    ) + spec_u32_to_le_bytes(u.mouse_pos_last_y)
}

/// The record a shader reads back from a 16-byte uniform buffer image.
pub open spec fn spec_decode(s: Seq<u8>) -> Uniforms
    recommends
        s.len() == 16,
{
    Uniforms {
        paused: spec_u32_from_le_bytes(s.subrange(0, 4)),
        mouse_down: spec_u32_from_le_bytes(s.subrange(4, 8)),
        mouse_pos_last_x: spec_u32_from_le_bytes(s.subrange(8, 12)),
        mouse_pos_last_y: spec_u32_from_le_bytes(s.subrange(12, 16)),
    }
}

impl Uniforms {
    /// The startup contents of the uniform buffer: all fields zero.
    pub fn zeroed() -> (u: Uniforms)
        ensures
            u == (Uniforms { paused: 0, mouse_down: 0, mouse_pos_last_x: 0, mouse_pos_last_y: 0 }),
    {
        Uniforms { paused: 0, mouse_down: 0, mouse_pos_last_x: 0, mouse_pos_last_y: 0 }
    }

    /// Serializes the record into the exact byte image the uniform buffer
    /// holds after the queued write.
    pub fn encode(&self) -> (bytes: Vec<u8>)
        ensures
            bytes@ == spec_encode(*self),
            bytes@.len() == UNIFORMS_SIZE,
    {
        proof {
            lemma_auto_spec_u32_to_from_le_bytes();
        }
        let mut bytes = u32_to_le_bytes(self.paused);
        let mut w1 = u32_to_le_bytes(self.mouse_down);
        let mut w2 = u32_to_le_bytes(self.mouse_pos_last_x);
        let mut w3 = u32_to_le_bytes(self.mouse_pos_last_y);
        bytes.append(&mut w1);
        bytes.append(&mut w2);
        bytes.append(&mut w3);
        bytes
    }
}

/// A whole-record overwrite is atomic from a pass's perspective: the byte
/// image written for a record decodes back to that record, every field new,
/// so a pass recorded after the write can never observe a partial update.
pub proof fn lemma_uniform_overwrite_atomic(u: Uniforms)
    ensures
        spec_encode(u).len() == 16,
        spec_decode(spec_encode(u)) == u,
{
    lemma_auto_spec_u32_to_from_le_bytes();
    let s = spec_encode(u);
    assert(s.subrange(0, 4) =~= spec_u32_to_le_bytes(u.paused));
    assert(s.subrange(4, 8) =~= spec_u32_to_le_bytes(u.mouse_down));
    assert(s.subrange(8, 12) =~= spec_u32_to_le_bytes(u.mouse_pos_last_x));
    assert(s.subrange(12, 16) =~= spec_u32_to_le_bytes(u.mouse_pos_last_y));
}

} // verus!
