//! End-to-end scenarios: the frame driver fed synthetic input snapshots
//! and acquisition outcomes.

use particles::config::SimConfig;
use particles::driver::{
    AcquireDecision, AcquireOutcome, AttachmentSelect, InputSnapshot, PointerInput, ResizeRequest,
    ShouldQuit, State,
};
use particles::stages::EntryPoint as Entry;

fn quiet_tick() -> InputSnapshot {
    InputSnapshot { has_events: true, pointer: None, resized: None, quit: false }
}

/// Drives one successful frame and returns the source bind-group index
/// its compute passes used.
fn run_one_frame(state: &mut State) -> usize {
    let actions = state.handle_events(&quiet_tick());
    assert!(actions.begin_frame);
    assert_eq!(state.on_acquire(AcquireOutcome::Acquired), AcquireDecision::Proceed);
    let passes = state.record_passes();
    state.finish_frame();
    passes.step.particle_group
}

#[test]
fn three_ticks_present_three_frames_alternating_roles() {
    let config = SimConfig::new(100, true, 1, 64);
    let mut state = State::new(config, 800, 600);
    let mut sources = Vec::new();
    for _ in 0..3 {
        sources.push(run_one_frame(&mut state));
    }
    assert_eq!(state.store.frames_completed, 3);
    assert_eq!(sources, vec![0, 1, 0]);
}

#[test]
fn timeout_skips_the_frame_and_the_next_proceeds() {
    let config = SimConfig::new(100, true, 1, 64);
    let mut state = State::new(config, 800, 600);
    for _ in 0..4 {
        run_one_frame(&mut state);
    }
    // Frame 5 times out: no pass is recorded, nothing is presented, the
    // buffer roles stay put.
    let actions = state.handle_events(&quiet_tick());
    assert!(actions.begin_frame);
    assert_eq!(state.on_acquire(AcquireOutcome::Timeout), AcquireDecision::SkipFrame);
    assert_eq!(state.store.frames_completed, 4);
    let parked = state.store.current;
    // Frame 6 proceeds normally.
    let source = run_one_frame(&mut state);
    assert_eq!(source as u32, parked);
    assert_eq!(state.store.frames_completed, 5);
}

#[test]
fn zero_dimension_resize_defers_reconfiguration() {
    let config = SimConfig::new(100, true, 1, 64);
    let mut state = State::new(config, 800, 600);
    run_one_frame(&mut state);
    // Minimized mid-run: no reconfiguration until both dimensions are
    // positive again.
    let minimized = InputSnapshot {
        has_events: true,
        pointer: None,
        resized: Some(ResizeRequest { width: 0, height: 600 }),
        quit: false,
    };
    let actions = state.handle_events(&minimized);
    assert!(!actions.reconfigure_surface);
    assert_eq!(state.gc.config.width, 800);
    assert_eq!(state.gc.config.height, 600);
    assert_eq!(state.on_acquire(AcquireOutcome::Acquired), AcquireDecision::Proceed);
    state.record_passes();
    state.finish_frame();
    // Restored: the resize is applied and the surface reconfigured.
    let restored = InputSnapshot {
        has_events: true,
        pointer: None,
        resized: Some(ResizeRequest { width: 1024, height: 600 }),
        quit: false,
    };
    let actions = state.handle_events(&restored);
    assert!(actions.reconfigure_surface);
    assert_eq!(state.gc.config.width, 1024);
    assert_eq!(state.gc.config.height, 600);
    assert_eq!(state.on_acquire(AcquireOutcome::Acquired), AcquireDecision::Proceed);
    state.record_passes();
    state.finish_frame();
    assert_eq!(state.store.frames_completed, 3);
}

#[test]
fn outdated_surface_is_reconfigured_and_retried_once() {
    let config = SimConfig::new(100, true, 1, 64);
    let mut state = State::new(config, 800, 600);
    state.handle_events(&quiet_tick());
    assert_eq!(
        state.on_acquire(AcquireOutcome::Outdated),
        AcquireDecision::ReconfigureAndRetry
    );
    assert_eq!(state.on_acquire(AcquireOutcome::Acquired), AcquireDecision::Proceed);
    state.record_passes();
    state.finish_frame();
    assert_eq!(state.store.frames_completed, 1);
}

#[test]
fn second_acquisition_failure_is_fatal() {
    let config = SimConfig::new(100, true, 1, 64);
    let mut state = State::new(config, 800, 600);
    state.handle_events(&quiet_tick());
    assert_eq!(
        state.on_acquire(AcquireOutcome::Outdated),
        AcquireDecision::ReconfigureAndRetry
    );
    assert_eq!(state.on_acquire(AcquireOutcome::Outdated), AcquireDecision::Fatal);
}

#[test]
fn other_acquisition_failure_is_fatal_at_once() {
    let config = SimConfig::new(100, true, 1, 64);
    let mut state = State::new(config, 800, 600);
    state.handle_events(&quiet_tick());
    assert_eq!(state.on_acquire(AcquireOutcome::OtherFailure), AcquireDecision::Fatal);
}

#[test]
fn quit_signal_is_reported() {
    let config = SimConfig::new(100, true, 1, 64);
    let mut state = State::new(config, 800, 600);
    let input = InputSnapshot { has_events: false, pointer: None, resized: None, quit: true };
    let actions = state.handle_events(&input);
    assert_eq!(actions.should_quit, ShouldQuit::True);
    assert!(!actions.begin_frame);
    assert_eq!(actions.uniform_write, None);
}

#[test]
fn pointer_input_queues_one_whole_uniform_image() {
    let config = SimConfig::new(100, true, 1, 64);
    let mut state = State::new(config, 800, 600);
    let input = InputSnapshot {
        has_events: true,
        pointer: Some(PointerInput { x_bits: 0x3F00_0000, y_bits: 0xBF00_0000, pressed: true }),
        resized: None,
        quit: false,
    };
    let actions = state.handle_events(&input);
    let bytes = actions.uniform_write.expect("pointer input must queue a uniform write");
    assert_eq!(
        bytes,
        vec![
            0, 0, 0, 0, // not paused
            1, 0, 0, 0, // button down
            0x00, 0x00, 0x00, 0x3F, // x bit pattern
            0x00, 0x00, 0x00, 0xBF, // y bit pattern
        ]
    );
    assert_eq!(state.render_stuff.shared.uniforms.mouse_down, 1);
    assert_eq!(state.render_stuff.shared.uniforms.mouse_pos_last_x, 0x3F00_0000);
}

#[test]
fn recorded_passes_cover_capacity_in_order() {
    let config = SimConfig::new(100, true, 1, 64);
    let mut state = State::new(config, 800, 600);
    state.handle_events(&quiet_tick());
    state.on_acquire(AcquireOutcome::Acquired);
    let passes = state.record_passes();
    assert_eq!(passes.step.entry, Entry::StepParticles);
    assert_eq!(passes.emit.entry, Entry::Emit);
    assert_eq!(
        (passes.step.dispatch_x, passes.step.dispatch_y, passes.step.dispatch_z),
        (1, 1, 1)
    );
    assert!(passes.step.dispatch_x * passes.step.dispatch_y * 256 >= 100);
    assert_eq!(passes.emit.dispatch_x, 1);
    // Compute reads the current source; render reads the destination.
    assert_eq!(passes.step.particle_group, 0);
    assert_eq!(passes.emit.particle_group, 0);
    assert_eq!(passes.render.particle_group, 1);
    assert_eq!(passes.render.vertex_count, 300);
    assert_eq!(passes.render.instance_count, 1);
    assert_eq!(passes.render.attachment, AttachmentSelect::SurfaceDirect);
}

#[test]
fn multisampled_render_resolves_through_matching_target() {
    let config = SimConfig::new(1000, true, 4, 64);
    let mut state = State::new(config, 1280, 720);
    state.handle_events(&quiet_tick());
    state.on_acquire(AcquireOutcome::Acquired);
    let passes = state.record_passes();
    assert_eq!(
        passes.render.attachment,
        AttachmentSelect::MsaaResolve { width: 1280, height: 720, sample_count: 4 }
    );
}
