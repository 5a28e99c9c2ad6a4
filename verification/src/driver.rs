//! The per-frame state machine.
//!
//! Each tick the driver consumes one input snapshot, decides which host
//! actions the shell must perform (reconfigure the surface, queue a
//! uniform write, start a frame), then walks one frame through
//! acquisition, pass recording, submission and presentation. The shell
//! performs each decided action against the real GPU and feeds outcomes —
//! in particular the result of acquiring the next presentable frame —
//! back into the machine, which branches on them exactly as the
//! presentation contract demands: an outdated surface is reconfigured and
//! retried once and is fatal the second time; a timeout skips the frame
//! silently; any other acquisition failure is fatal.
//!
//! The driver keeps no ambient global state: everything per-frame lives
//! in [`State`], so the machine can be driven with synthetic inputs and
//! outcomes.

use crate::config::SimConfig;
use crate::dispatch::ceil_div;
use crate::dispatch::emit_dispatch;
use crate::dispatch::step_dispatch;
use crate::dispatch::EMIT_WORKGROUP_SIZE;
use crate::dispatch::MAX_DISPATCH_DIM;
use crate::dispatch::STEP_WORKGROUP_SIZE;
use crate::gfx_ctx::GraphicsContext;
use crate::gfx_ctx::SurfaceConfig;
use crate::stages::group_matches_layout;
use crate::stages::lemma_compute_wiring;
use crate::stages::lemma_render_wiring;
use crate::stages::EntryPoint;
use crate::stages::RenderStuff;
use crate::store::ParticleStore;
use crate::uniforms::spec_encode;
use crate::uniforms::Uniforms;
use vstd::prelude::*;

verus! {

/// Whether the shell should leave its event loop after this tick.
#[derive(Clone, Copy, PartialEq, Eq, Structural, Debug)]
pub enum ShouldQuit {
    True,
    False,
}

/// Pointer state sampled this tick, already normalized to device space by
/// the shell; the coordinates travel as IEEE-754 bit patterns.
#[derive(Clone, Copy, PartialEq, Eq, Structural, Debug)]
pub struct PointerInput {
    pub x_bits: u32,
    pub y_bits: u32,
    /// Primary button pressed or held.
    pub pressed: bool,
}

/// A window-resize notification: the new pixel dimensions.
#[derive(Clone, Copy, PartialEq, Eq, Structural, Debug)]
pub struct ResizeRequest {
    pub width: u32,
    pub height: u32,
}

/// Everything the input collaborator supplies for one tick.
#[derive(Clone, Copy, PartialEq, Eq, Structural, Debug)]
pub struct InputSnapshot {
    /// The event batch was cleared: a frame should be produced this tick.
    pub has_events: bool,
    pub pointer: Option<PointerInput>,
    pub resized: Option<ResizeRequest>,
    pub quit: bool,
}

/// Host actions the shell must perform after [`State::handle_events`].
#[derive(Debug)]
pub struct TickActions {
    pub should_quit: ShouldQuit,
    /// Reapply the surface configuration to the presentation surface.
    pub reconfigure_surface: bool,
    /// Queue this byte image over the whole uniform buffer before the
    /// frame's passes are recorded.
    pub uniform_write: Option<Vec<u8>>,
    /// Acquire a frame and drive it through the remaining phases.
    pub begin_frame: bool,
}

/// Where the machine stands inside the current tick.
#[derive(Clone, Copy, PartialEq, Eq, Structural, Debug)]
pub enum FramePhase {
    /// Between ticks.
    Idle,
    /// Host updates applied; waiting for the first acquisition outcome.
    AwaitingAcquire,
    /// Surface was outdated once and is being reconfigured; waiting for
    /// the one retried acquisition.
    AwaitingRetry,
    /// A presentable frame is acquired; passes may be recorded.
    ReadyToRecord,
    /// Passes recorded; waiting for submission and presentation.
    Recorded,
}

/// Outcome of asking the presentation surface for the next frame.
#[derive(Clone, Copy, PartialEq, Eq, Structural, Debug)]
pub enum AcquireOutcome {
    /// A presentable frame was handed out.
    Acquired,
    /// The surface no longer matches its configuration.
    Outdated,
    /// The presentation engine did not produce a frame in time.
    Timeout,
    /// Any other failure (surface lost, out of memory).
    OtherFailure,
}

/// What the shell must do with an acquisition outcome.
#[derive(Clone, Copy, PartialEq, Eq, Structural, Debug)]
pub enum AcquireDecision {
    /// Record and submit the frame's passes against the acquired frame.
    Proceed,
    /// Reconfigure the surface, acquire again, and report that outcome.
    ReconfigureAndRetry,
    /// Drop this frame without presenting; try again next tick.
    SkipFrame,
    /// Unrecoverable: the shell aborts as the setup-failure policy says.
    Fatal,
}

/// One compute pass to record: which entry point, which prebuilt particle
/// bind group (by index, selected by parity), and the workgroup grid.
/// The shared state block's compute bind group is bound alongside at
/// group index 1.
#[derive(Clone, Copy, PartialEq, Eq, Structural, Debug)]
pub struct ComputePassModel {
    pub entry: EntryPoint,
    pub particle_group: usize,
    pub dispatch_x: u32,
    pub dispatch_y: u32,
    pub dispatch_z: u32,
}

/// Which image the render pass draws into.
#[derive(Clone, Copy, PartialEq, Eq, Structural, Debug)]
pub enum AttachmentSelect {
    /// Single-sample: the acquired surface image directly.
    SurfaceDirect,
    /// Multisampled: the offscreen target, resolved into the surface
    /// image; its dimensions and sample count match the surface exactly.
    MsaaResolve { width: u32, height: u32, sample_count: u32 },
}

/// The render pass to record: attachment choice, the read-only particle
/// bind group left valid by the compute passes, and the draw call. The
/// pass clears to the fixed background color and draws three vertices per
/// particle in one instance, with no vertex buffer.
#[derive(Clone, Copy, PartialEq, Eq, Structural, Debug)]
pub struct RenderPassModel {
    pub attachment: AttachmentSelect,
    pub particle_group: usize,
    pub vertex_count: u32,
    pub instance_count: u32,
}

/// The passes of one frame, in the order they must be recorded: step
/// first (advancing existing particles exactly one tick), then emit
/// (spawning this frame's batch), then the render pass. Emitting before
/// stepping would advance newly spawned particles immediately.
#[derive(Clone, Copy, PartialEq, Eq, Structural, Debug)]
pub struct FramePasses {
    pub step: ComputePassModel,
    pub emit: ComputePassModel,
    pub render: RenderPassModel,
}

/// The uniform record one tick's pointer input turns into: never a
/// partial patch of the previous record.
pub open spec fn uniforms_for_pointer(p: PointerInput) -> Uniforms {
    Uniforms {
        paused: 0,
        mouse_down: if p.pressed {
            1
        } else {
            0
        },
        mouse_pos_last_x: p.x_bits,
        mouse_pos_last_y: p.y_bits,
    }
}

/// The whole per-frame mutable state of the engine.
#[derive(Debug)]
pub struct State {
    pub config: SimConfig,
    pub gc: GraphicsContext,
    pub render_stuff: RenderStuff,
    pub store: ParticleStore,
    pub phase: FramePhase,
}

impl State {
    /// The cross-frame invariant: configuration valid, presentation state
    /// well-formed and on the configured sample count, wiring well-formed
    /// for the configuration, and the store's role parity intact.
    pub open spec fn wf(self) -> bool {
        &&& self.config.wf()
        &&& self.gc.wf()
        &&& self.gc.sample_count == self.config.sample_count
        &&& self.render_stuff.wf(self.config)
        &&& self.store.wf()
        &&& self.store.double_buffered == self.config.double_buffered
        &&& self.store.capacity() == self.config.particle_count
    }

    /// Frames successfully presented so far: exactly the completed
    /// frames, since a frame completes by being submitted and presented.
    pub open spec fn frames_presented(self) -> u64 {
        self.store.frames_completed
    }

    /// Builds the engine: presentation state for the window's size and
    /// the configured sample count, the full stage wiring, and the
    /// particle store with buffer 0 as the initial readable buffer.
    pub fn new(config: SimConfig, window_width: u32, window_height: u32) -> (s: State)
        requires
            config.wf(),
            window_width >= 1,
            window_height >= 1,
        ensures
            s.wf(),
            s.config == config,
            s.phase is Idle,
            s.frames_presented() == 0,
            s.store.current == 0,
            s.gc.config.width == window_width,
            s.gc.config.height == window_height,
    {
        let gc = GraphicsContext::new(window_width, window_height, config.sample_count);
        let render_stuff = RenderStuff::new(&config);
        let store = ParticleStore::new(config.particle_count, config.double_buffered);
        State { config, gc, render_stuff, store, phase: FramePhase::Idle }
    }

    /// Applies one tick's host input. Resize notifications update the
    /// presentation state under the degenerate-resize rule (a zero
    /// dimension changes nothing and asks for no reconfiguration); fresh
    /// pointer input becomes one whole-record uniform overwrite, queued
    /// before any pass of the frame is recorded; and the returned actions
    /// tell the shell what to perform and whether to drive a frame.
    pub fn handle_events(&mut self, input: &InputSnapshot) -> (r: TickActions)
        requires
            old(self).wf(),
            old(self).phase is Idle,
        ensures
            final(self).wf(),
            r.should_quit == (if input.quit {
                ShouldQuit::True
            } else {
                ShouldQuit::False
            }),
            r.begin_frame == input.has_events,
            final(self).phase == (if input.has_events {
                FramePhase::AwaitingAcquire
            } else {
                FramePhase::Idle
            }),
            // Resize rules.
            input.resized is None ==> !r.reconfigure_surface && final(self).gc == old(self).gc,
            input.resized matches Some(rr) ==> {
                &&& r.reconfigure_surface == (rr.width > 0 && rr.height > 0)
                &&& !r.reconfigure_surface ==> final(self).gc == old(self).gc
                &&& r.reconfigure_surface ==> final(self).gc.config == (SurfaceConfig {
                    width: rr.width,
                    height: rr.height,
                    present_mode: old(self).gc.config.present_mode,
                })
            },
            final(self).gc.sample_count == old(self).gc.sample_count,
            // Uniform update rules.
            match input.pointer {
                Some(p) => input.has_events ==> {
                    &&& r.uniform_write matches Some(bytes) && bytes@ == spec_encode(
                        uniforms_for_pointer(p),
                    )
                    &&& final(self).render_stuff.shared.uniforms == uniforms_for_pointer(p)
                },
                None => true,
            },
            !(input.has_events && input.pointer is Some) ==> r.uniform_write is None
                && final(self).render_stuff.shared.uniforms == old(self).render_stuff.shared.uniforms,
            // Nothing else moves.
            final(self).config == old(self).config,
            final(self).store == old(self).store,
            final(self).render_stuff.shared.capacity == old(self).render_stuff.shared.capacity,
    {
        let mut reconfigure_surface = false;
        match input.resized {
            Some(rr) => {
                reconfigure_surface = self.gc.resize(rr.width, rr.height);
            },
            None => {},
        }
        let mut uniform_write: Option<Vec<u8>> = None;
        if input.has_events {
            match input.pointer {
                Some(p) => {
                    let new_state = Uniforms {
                        paused: 0,
                        mouse_down: if p.pressed {
                            1
                        } else {
                            0
                        },
                        mouse_pos_last_x: p.x_bits,
                        mouse_pos_last_y: p.y_bits,
                    };
                    uniform_write = Some(self.render_stuff.shared.update_uniforms(new_state));
                },
                None => {},
            }
            self.phase = FramePhase::AwaitingAcquire;
        }
        let should_quit = if input.quit {
            ShouldQuit::True
        } else {
            ShouldQuit::False
        };
        TickActions { should_quit, reconfigure_surface, uniform_write, begin_frame: input.has_events }
    }

    /// Branches on one acquisition outcome, exactly as the presentation
    /// failure policy demands: an outdated surface is reconfigured and
    /// the acquisition retried exactly once, any failure of that retry is
    /// fatal; a timeout skips the whole frame — no pass is recorded, no
    /// presentation happens, the buffer roles stay as they are — and the
    /// next tick proceeds normally; any other failure is fatal.
    pub fn on_acquire(&mut self, outcome: AcquireOutcome) -> (d: AcquireDecision)
        requires
            old(self).wf(),
            old(self).phase is AwaitingAcquire || old(self).phase is AwaitingRetry,
        ensures
            final(self).wf(),
            old(self).phase is AwaitingAcquire ==> match outcome {
                AcquireOutcome::Acquired => d == AcquireDecision::Proceed && final(self).phase
                    is ReadyToRecord,
                AcquireOutcome::Outdated => d == AcquireDecision::ReconfigureAndRetry && final(self).phase
                    is AwaitingRetry,
                AcquireOutcome::Timeout => d == AcquireDecision::SkipFrame && final(self).phase
                    is Idle,
                AcquireOutcome::OtherFailure => d == AcquireDecision::Fatal && final(self).phase
                    is Idle,
            },
            old(self).phase is AwaitingRetry ==> match outcome {
                AcquireOutcome::Acquired => d == AcquireDecision::Proceed && final(self).phase
                    is ReadyToRecord,
                _ => d == AcquireDecision::Fatal && final(self).phase is Idle,
            },
            // Nothing but the phase moves: in particular a skipped frame
            // presents nothing and leaves the buffer roles untouched.
            final(self).config == old(self).config,
            final(self).gc == old(self).gc,
            final(self).store == old(self).store,
            final(self).frames_presented() == old(self).frames_presented(),
            final(self).render_stuff.shared.uniforms == old(self).render_stuff.shared.uniforms,
            final(self).render_stuff.shared.capacity == old(self).render_stuff.shared.capacity,
    {
        let retrying = matches!(self.phase, FramePhase::AwaitingRetry);
        match outcome {
            AcquireOutcome::Acquired => {
                self.phase = FramePhase::ReadyToRecord;
                AcquireDecision::Proceed
            },
            AcquireOutcome::Outdated => {
                if retrying {
                    self.phase = FramePhase::Idle;
                    AcquireDecision::Fatal
                } else {
                    self.phase = FramePhase::AwaitingRetry;
                    AcquireDecision::ReconfigureAndRetry
                }
            },
            AcquireOutcome::Timeout => {
                self.phase = FramePhase::Idle;
                if retrying {
                    AcquireDecision::Fatal
                } else {
                    AcquireDecision::SkipFrame
                }
            },
            AcquireOutcome::OtherFailure => {
                self.phase = FramePhase::Idle;
                AcquireDecision::Fatal
            },
        }
    }

    /// Decides the frame's passes, in recording order: the step pass over
    /// every particle index, the emit pass for this frame's spawn batch —
    /// both against the bind group whose source role matches the current
    /// parity — and the render pass against the buffer the compute passes
    /// leave valid, drawn with three vertices per particle into the
    /// attachment matching the current sample count. Every selected bind
    /// group is proved to satisfy the layout its pipeline expects at that
    /// group index, and the step grid is proved to cover the configured
    /// capacity.
    pub fn record_passes(&mut self) -> (fp: FramePasses)
        requires
            old(self).wf(),
            old(self).phase is ReadyToRecord,
        ensures
            final(self).wf(),
            final(self).phase is Recorded,
            // The step pass: one tick for every live particle.
            fp.step.entry == EntryPoint::StepParticles,
            fp.step.particle_group as int == old(self).store.source_index() as int,
            fp.step.particle_group < final(self).render_stuff.compute.bind_groups@.len(),
            group_matches_layout(
                final(self).render_stuff.compute.bind_groups@[fp.step.particle_group as int],
                final(self).render_stuff.compute.compute_pipeline.group_layouts@[0],
                old(self).config.buffer_count(),
            ),
            group_matches_layout(
                final(self).render_stuff.shared.compute_bind_group,
                final(self).render_stuff.compute.compute_pipeline.group_layouts@[1],
                old(self).config.buffer_count(),
            ),
            fp.step.dispatch_x as int * fp.step.dispatch_y as int * STEP_WORKGROUP_SIZE as int
                >= old(self).config.particle_count as int,
            1 <= fp.step.dispatch_x <= MAX_DISPATCH_DIM,
            1 <= fp.step.dispatch_y <= MAX_DISPATCH_DIM,
            fp.step.dispatch_y == 1 ==> fp.step.dispatch_x == ceil_div(
                old(self).config.particle_count as int,
                STEP_WORKGROUP_SIZE as int,
            ),
            fp.step.dispatch_y > 1 ==> fp.step.dispatch_x == MAX_DISPATCH_DIM
                && fp.step.dispatch_x as int * (fp.step.dispatch_y - 1) < ceil_div(
                old(self).config.particle_count as int,
                STEP_WORKGROUP_SIZE as int,
            ),
            fp.step.dispatch_z == 1,
            // The emit pass: the configured spawn batch, same role group.
            fp.emit.entry == EntryPoint::Emit,
            fp.emit.particle_group == fp.step.particle_group,
            group_matches_layout(
                final(self).render_stuff.compute.bind_groups@[fp.emit.particle_group as int],
                final(self).render_stuff.compute.emit_pipeline.group_layouts@[0],
                old(self).config.buffer_count(),
            ),
            group_matches_layout(
                final(self).render_stuff.shared.compute_bind_group,
                final(self).render_stuff.compute.emit_pipeline.group_layouts@[1],
                old(self).config.buffer_count(),
            ),
            fp.emit.dispatch_x == ceil_div(
                old(self).config.emit_batch_size as int,
                EMIT_WORKGROUP_SIZE as int,
            ),
            fp.emit.dispatch_x as int * EMIT_WORKGROUP_SIZE as int >= old(
                self,
            ).config.emit_batch_size as int,
            1 <= fp.emit.dispatch_x <= MAX_DISPATCH_DIM,
            fp.emit.dispatch_y == 1,
            fp.emit.dispatch_z == 1,
            // The render pass: reads the destination of this frame's
            // compute passes, three vertices per particle, one instance.
            fp.render.particle_group as int == old(self).store.dest_index() as int,
            fp.render.particle_group < final(self).render_stuff.render.bind_groups@.len(),
            group_matches_layout(
                final(self).render_stuff.render.bind_groups@[fp.render.particle_group as int],
                final(self).render_stuff.render.render_pipeline.group_layouts@[0],
                old(self).config.buffer_count(),
            ),
            group_matches_layout(
                final(self).render_stuff.shared.render_bind_group,
                final(self).render_stuff.render.render_pipeline.group_layouts@[1],
                old(self).config.buffer_count(),
            ),
            group_matches_layout(
                final(self).render_stuff.render.texture_bind_group,
                final(self).render_stuff.render.render_pipeline.group_layouts@[2],
                old(self).config.buffer_count(),
            ),
            fp.render.vertex_count == 3 * old(self).config.particle_count,
            fp.render.instance_count == 1,
            // Attachment selection matches the presentation state: the
            // offscreen target's dimensions and sample count, when one is
            // used, equal the surface configuration exactly.
            old(self).gc.sample_count == 1 ==> fp.render.attachment is SurfaceDirect,
            old(self).gc.sample_count > 1 ==> fp.render.attachment == (AttachmentSelect::MsaaResolve {
                width: old(self).gc.config.width,
                height: old(self).gc.config.height,
                sample_count: old(self).gc.sample_count,
            }),
            // Nothing but the phase moves.
            final(self).config == old(self).config,
            final(self).gc == old(self).gc,
            final(self).store == old(self).store,
            final(self).frames_presented() == old(self).frames_presented(),
            final(self).render_stuff.shared.uniforms == old(self).render_stuff.shared.uniforms,
            final(self).render_stuff.shared.capacity == old(self).render_stuff.shared.capacity,
    {
        proof {
            lemma_compute_wiring(
                self.render_stuff.compute,
                self.render_stuff.shared,
                self.config.double_buffered,
                self.config.buffer_count(),
            );
            lemma_render_wiring(
                self.render_stuff.render,
                self.render_stuff.shared,
                self.config.double_buffered,
                self.config.buffer_count(),
            );
        }
        let (step_x, step_y) = step_dispatch(self.config.particle_count);
        let emit_x = emit_dispatch(self.config.emit_batch_size);
        let source: usize = self.store.current as usize;
        let dest: usize = if self.store.double_buffered {
            (1 - self.store.current) as usize
        } else {
            0
        };
        let step = ComputePassModel {
            entry: EntryPoint::StepParticles,
            particle_group: source,
            dispatch_x: step_x,
            dispatch_y: step_y,
            dispatch_z: 1,
        };
        let emit = ComputePassModel {
            entry: EntryPoint::Emit,
            particle_group: source,
            dispatch_x: emit_x,
            dispatch_y: 1,
            dispatch_z: 1,
        };
        let attachment = if self.gc.sample_count == 1 {
            AttachmentSelect::SurfaceDirect
        } else {
            AttachmentSelect::MsaaResolve {
                width: self.gc.config.width,
                height: self.gc.config.height,
                sample_count: self.gc.sample_count,
            }
        };
        let render = RenderPassModel {
            attachment,
            particle_group: dest,
            vertex_count: 3 * self.config.particle_count,
            instance_count: 1,
        };
        self.phase = FramePhase::Recorded;
        FramePasses { step, emit, render }
    }

    /// Completes the frame: the shell has submitted the recorded passes
    /// as one command sequence and presented the acquired frame. The
    /// former destination buffer becomes the next frame's source — the
    /// only role swap there is — and the machine returns to idle.
    pub fn finish_frame(&mut self)
        requires
            old(self).wf(),
            old(self).phase is Recorded,
            old(self).store.frames_completed < u64::MAX,
        ensures
            final(self).wf(),
            final(self).phase is Idle,
            final(self).frames_presented() == old(self).frames_presented() + 1,
            final(self).store.current == old(self).store.dest_index(),
            old(self).config.double_buffered ==> final(self).store.current == 1 - old(
                self,
            ).store.current,
            !old(self).config.double_buffered ==> final(self).store.current == 0,
            final(self).store.double_buffered == old(self).store.double_buffered,
            final(self).store.buffer_a == old(self).store.buffer_a,
            final(self).store.buffer_b == old(self).store.buffer_b,
            final(self).config == old(self).config,
            final(self).gc == old(self).gc,
            final(self).render_stuff.shared.uniforms == old(self).render_stuff.shared.uniforms,
            final(self).render_stuff.shared.capacity == old(self).render_stuff.shared.capacity,
    {
        self.store.complete_frame();
        self.phase = FramePhase::Idle;
    }
}

/// The alternation law at the driver level: in every reachable state of a
/// double-buffered engine, the buffer the next frame reads is determined
/// by the parity of the frames presented so far — buffer 0 after an even
/// count, buffer 1 after an odd one; a single-buffered engine reads
/// buffer 0 forever. This holds whatever mix of presented, skipped and
/// retried frames led to the state, because only a completed frame moves
/// either side of the equation.
pub proof fn lemma_frame_parity(s: State)
    requires
        s.wf(),
    ensures
        s.config.double_buffered ==> s.store.source_index() == s.frames_presented() as int % 2,
        !s.config.double_buffered ==> s.store.source_index() == 0,
{
}

} // verus!
