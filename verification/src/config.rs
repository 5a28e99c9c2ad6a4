//! Build-time configuration of one simulation instance.
//!
//! The orchestration engine is one configuration-driven component: the
//! fields below select which buffers, bind groups and passes are built
//! (single buffer vs. ping-pong pair, multisampling or not, how large an
//! emission batch is dispatched each frame).

use vstd::prelude::*;

verus! {

/// Largest particle population a store may be configured with.
pub const MAX_PARTICLES: u32 = 1_048_576;

/// Fixed byte stride of one particle record in the storage buffers.
pub const PARTICLE_STRIDE: u64 = 64;

/// Storage-buffer binding-size limit requested from the device at startup,
/// raised above the default so that a full-capacity particle buffer
/// (`MAX_PARTICLES * PARTICLE_STRIDE` bytes) always fits one binding.
pub const MAX_STORAGE_BUFFER_BINDING_SIZE: u64 = 268_435_456;

/// Init-time configuration of the whole engine.
#[derive(Clone, Copy, PartialEq, Eq, Structural, Debug)]
pub struct SimConfig {
    /// Number of particle records each storage buffer holds.
    pub particle_count: u32,
    /// `true`: two buffers alternate source/destination roles each frame;
    /// `false`: a single buffer is read and written in place.
    pub double_buffered: bool,
    /// Samples per pixel of the color target; `1` renders straight to the
    /// surface, anything larger goes through an offscreen multisample target.
    pub sample_count: u32,
    /// Target number of particles spawned per frame by the emit pass.
    pub emit_batch_size: u32,
}

impl SimConfig {
    /// A configuration the engine can be built from.
    pub open spec fn wf(self) -> bool {
        &&& 1 <= self.particle_count <= MAX_PARTICLES
        &&& (self.sample_count == 1 || self.sample_count == 2 || self.sample_count == 4
            || self.sample_count == 8)
        &&& 1 <= self.emit_batch_size <= MAX_PARTICLES
    }

    /// How many GPU buffers the particle store owns under this configuration.
    pub open spec fn buffer_count(self) -> int {
        if self.double_buffered {
            2
        } else {
            1
        }
    }

    pub fn new(particle_count: u32, double_buffered: bool, sample_count: u32, emit_batch_size: u32)
        -> (c: SimConfig)
        requires
            1 <= particle_count <= MAX_PARTICLES,
            sample_count == 1 || sample_count == 2 || sample_count == 4 || sample_count == 8,
            1 <= emit_batch_size <= MAX_PARTICLES,
        ensures
            c == (SimConfig { particle_count, double_buffered, sample_count, emit_batch_size }),
            c.wf(),
    {
        SimConfig { particle_count, double_buffered, sample_count, emit_batch_size }
    }
}

} // verus!
