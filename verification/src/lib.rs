//! Orchestration core for a GPU-resident particle simulation.
//!
//! A fixed population of particles lives in one or two GPU storage buffers
//! (a ping-pong pair in the double-buffered variant). Each frame a compute
//! stage advances the population, an emit stage spawns new particles, and a
//! render stage draws the current population to a presentation surface.
//!
//! This crate holds the verified decision logic of that loop: dispatch-size
//! arithmetic, the ping-pong parity discipline, bind-group/pipeline wiring,
//! surface resize rules, whole-record uniform updates, and the per-frame
//! state machine with its presentation-failure handling. The unverified
//! shell that owns the actual GPU device, window and event loop performs
//! the actions this crate decides on and feeds the outcomes back in.

pub mod config;
pub mod dispatch;
pub mod driver;
pub mod gfx_ctx;
pub mod stages;
pub mod store;
pub mod uniforms;
