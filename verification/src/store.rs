//! The particle store and its ping-pong role discipline.
//!
//! The store owns one or two GPU storage buffers of fixed-stride particle
//! records. In the double-buffered variant the two buffers alternate roles
//! every frame: one is the source (read-only this frame, the stable result
//! of the previous frame), the other the destination the compute pass
//! writes. The role swap is logical — a current index toggled once per
//! completed frame — never an in-place rewrite of any bind group. This
//! alternation is the entire synchronization mechanism between the compute
//! writer and the render reader: within one frame no buffer is both.
//!
//! In the single-buffer variant the one buffer is read and written in
//! place, and the compute program itself serializes the hazard through
//! atomic indices; the index below then never moves.

use crate::config::MAX_PARTICLES;
use crate::config::MAX_STORAGE_BUFFER_BINDING_SIZE;
use crate::config::PARTICLE_STRIDE;
use vstd::prelude::*;

verus! {

/// One GPU storage buffer of particle records.
#[derive(Clone, Copy, PartialEq, Eq, Structural, Debug)]
pub struct ParticleBuffer {
    /// Number of records the buffer holds.
    pub capacity: u32,
    /// Byte size of one record; constant across the whole store.
    pub stride: u64,
    /// Total byte size of the buffer.
    pub size_bytes: u64,
}

impl ParticleBuffer {
    /// Buffer-size invariant: the byte size is exactly capacity times the
    /// record stride, and fits the storage-buffer binding limit requested
    /// from the device.
    pub open spec fn wf(self) -> bool {
        &&& 1 <= self.capacity <= MAX_PARTICLES
        &&& self.stride == PARTICLE_STRIDE
        &&& self.size_bytes == self.capacity as int * PARTICLE_STRIDE as int
        &&& self.size_bytes <= MAX_STORAGE_BUFFER_BINDING_SIZE
    }

    /// Sizes a zero-initialized particle buffer for `capacity` records.
    pub fn new(capacity: u32) -> (b: ParticleBuffer)
        requires
            1 <= capacity <= MAX_PARTICLES,
        ensures
            b.wf(),
            b.capacity == capacity,
    {
        let size_bytes: u64 = capacity as u64 * PARTICLE_STRIDE;
        ParticleBuffer { capacity, stride: PARTICLE_STRIDE, size_bytes }
    }
}

/// The buffer pair (or singleton) and the current role assignment.
#[derive(Clone, Copy, PartialEq, Eq, Structural, Debug)]
pub struct ParticleStore {
    pub double_buffered: bool,
    /// First buffer; the initial source.
    pub buffer_a: ParticleBuffer,
    /// Second buffer of the ping-pong pair; absent in the single-buffer
    /// variant.
    pub buffer_b: Option<ParticleBuffer>,
    /// Index (0 or 1) of the buffer holding the stable result: the one the
    /// next frame's compute pass reads.
    pub current: u32,
    /// Number of frames completed (recorded, submitted and presented) so
    /// far.
    pub frames_completed: u64,
}

/// The readable index after one more completed frame.
pub open spec fn next_readable(current: u32, double_buffered: bool) -> u32 {
    if double_buffered {
        (1 - current) as u32
    } else {
        0
    }
}

/// The readable index after `n` completed frames, starting from `initial`.
pub open spec fn readable_after(initial: u32, double_buffered: bool, n: nat) -> u32
    decreases n,
{
    if n == 0 {
        initial
    } else {
        next_readable(readable_after(initial, double_buffered, (n - 1) as nat), double_buffered)
    }
}

impl ParticleStore {
    /// Store invariant: both buffers well-formed and equally sized, the
    /// second buffer present exactly in the double-buffered variant, and
    /// the current index tied to the parity of completed frames — buffer 0
    /// after an even number of frames, buffer 1 after an odd one.
    pub open spec fn wf(self) -> bool {
        &&& self.buffer_a.wf()
        &&& match self.buffer_b {
            Some(b) => self.double_buffered && b == self.buffer_a,
            None => !self.double_buffered,
        }
        &&& if self.double_buffered {
            self.current == self.frames_completed as int % 2
        } else {
            self.current == 0
        }
    }

    /// Number of records each buffer holds.
    pub open spec fn capacity(self) -> u32 {
        self.buffer_a.capacity
    }

    /// Index of the buffer the compute pass reads this frame: the stable
    /// result of the previous frame.
    pub open spec fn source_index(self) -> u32 {
        self.current
    }

    /// Index of the buffer the compute pass writes this frame and the
    /// render pass then draws from; in the single-buffer variant the same
    /// buffer as the source.
    pub open spec fn dest_index(self) -> u32 {
        next_readable(self.current, self.double_buffered)
    }

    /// Allocates the store: buffer 0 always, buffer 1 only for the
    /// ping-pong pair; buffer 0 starts as the readable one.
    pub fn new(capacity: u32, double_buffered: bool) -> (s: ParticleStore)
        requires
            1 <= capacity <= MAX_PARTICLES,
        ensures
            s.wf(),
            s.capacity() == capacity,
            s.double_buffered == double_buffered,
            s.current == 0,
            s.frames_completed == 0,
    {
        let buffer_a = ParticleBuffer::new(capacity);
        let buffer_b = if double_buffered {
            Some(ParticleBuffer::new(capacity))
        } else {
            None
        };
        ParticleStore { double_buffered, buffer_a, buffer_b, current: 0, frames_completed: 0 }
    }

    /// Records the completion of one frame: the former destination becomes
    /// the next frame's source. In the double-buffered variant the current
    /// index toggles; in the single-buffer variant it stays 0.
    pub fn complete_frame(&mut self)
        requires
            old(self).wf(),
            old(self).frames_completed < u64::MAX,
        ensures
            final(self).wf(),
            final(self).frames_completed == old(self).frames_completed + 1,
            final(self).current == old(self).dest_index(),
            final(self).double_buffered == old(self).double_buffered,
            final(self).buffer_a == old(self).buffer_a,
            final(self).buffer_b == old(self).buffer_b,
            old(self).double_buffered ==> final(self).current == 1 - old(self).current,
    {
        if self.double_buffered {
            self.current = 1 - self.current;
        }
        self.frames_completed = self.frames_completed + 1;
    }
}

/// The ping-pong alternation law: starting from buffer 0, the readable
/// buffer after `n` completed frames of the double-buffered variant is
/// buffer 0 when `n` is even and buffer 1 when `n` is odd — however each
/// individual frame's dispatches turned out. The single-buffer variant
/// reads buffer 0 forever.
pub proof fn lemma_readable_alternates(double_buffered: bool, n: nat)
    ensures
        double_buffered ==> readable_after(0, true, n) == n % 2,
        !double_buffered ==> readable_after(0, false, n) == 0,
    decreases n,
{
    if n > 0 {
        lemma_readable_alternates(double_buffered, (n - 1) as nat);
    }
}

/// In every reachable store state the current index agrees with the
/// abstract alternation law applied to the count of completed frames: the
/// invariant ties the concrete toggle to the parity of the frame count.
pub proof fn lemma_store_follows_parity(s: ParticleStore)
    requires
        s.wf(),
    ensures
        s.current == readable_after(0, s.double_buffered, s.frames_completed as nat),
{
    lemma_readable_alternates(s.double_buffered, s.frames_completed as nat);
}

} // verus!
