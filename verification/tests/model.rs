//! Tests of the leaf models: dispatch arithmetic, the uniform byte
//! layout, the presentation state, the particle store, and the stage
//! wiring.

use particles::config::SimConfig;
use particles::dispatch::{emit_dispatch, step_dispatch, workgroups_for};
use particles::gfx_ctx::{GraphicsContext, MsaaFramebuffer, PresentMode};
use particles::stages::{
    BindEntry, EntryPoint, LayoutEntry, RenderStuff, Resource, Shared, SlotKind, StageAccess,
};
use particles::store::ParticleStore;
use particles::uniforms::Uniforms;

#[test]
fn step_dispatch_divisible_capacity() {
    // 512 = 2 * 256: exactly two workgroups, one dispatch dimension.
    assert_eq!(step_dispatch(512), (2, 1));
}

#[test]
fn step_dispatch_one_below_workgroup_size() {
    assert_eq!(step_dispatch(255), (1, 1));
}

#[test]
fn step_dispatch_capacity_one() {
    assert_eq!(step_dispatch(1), (1, 1));
}

#[test]
fn step_dispatch_full_population() {
    // 1_048_576 / 256 = 4096 workgroups, still within one dimension.
    let (x, y) = step_dispatch(1_048_576);
    assert_eq!((x, y), (4096, 1));
    assert!((x as u64) * (y as u64) * 256 >= 1_048_576);
}

#[test]
fn workgroups_cover_and_are_minimal() {
    for count in [1u32, 2, 100, 255, 256, 257, 1000, 65536] {
        let w = workgroups_for(count, 256);
        assert!(w * 256 >= count, "under-dispatch at {count}");
        assert!((w - 1) * 256 < count, "over-dispatch at {count}");
    }
}

#[test]
fn emit_dispatch_small_batch_is_one_group() {
    assert_eq!(emit_dispatch(1), 1);
    assert_eq!(emit_dispatch(256), 1);
    assert_eq!(emit_dispatch(257), 2);
}

#[test]
fn uniforms_encode_exact_bytes() {
    let u = Uniforms {
        paused: 1,
        mouse_down: 0x0102_0304,
        mouse_pos_last_x: 0x3F80_0000, // bit pattern of 1.0f32
        mouse_pos_last_y: 0xBF80_0000, // bit pattern of -1.0f32
    };
    let bytes = u.encode();
    assert_eq!(
        bytes,
        vec![
            1, 0, 0, 0, // paused, little-endian
            0x04, 0x03, 0x02, 0x01, // mouse_down
            0x00, 0x00, 0x80, 0x3F, // x bit pattern
            0x00, 0x00, 0x80, 0xBF, // y bit pattern
        ]
    );
}

#[test]
fn uniforms_zeroed_encodes_to_zero_bytes() {
    assert_eq!(Uniforms::zeroed().encode(), vec![0u8; 16]);
}

#[test]
fn resize_zero_dimension_is_a_no_op() {
    let mut gc = GraphicsContext::new(800, 600, 4);
    let before = gc;
    assert!(!gc.resize(0, 0));
    assert_eq!(gc, before);
    assert!(!gc.resize(0, 600));
    assert_eq!(gc, before);
    assert!(!gc.resize(800, 0));
    assert_eq!(gc, before);
}

#[test]
fn resize_positive_tracks_surface_and_msaa() {
    let mut gc = GraphicsContext::new(800, 600, 4);
    assert!(gc.resize(1024, 768));
    assert_eq!(gc.config.width, 1024);
    assert_eq!(gc.config.height, 768);
    assert_eq!(gc.config.present_mode, PresentMode::Immediate);
    assert_eq!(gc.sample_count, 4);
    assert_eq!(
        gc.msaa_framebuffer,
        Some(MsaaFramebuffer { width: 1024, height: 768, sample_count: 4 })
    );
}

#[test]
fn single_sample_context_has_no_msaa_target() {
    let mut gc = GraphicsContext::new(640, 480, 1);
    assert_eq!(gc.msaa_framebuffer, None);
    assert!(gc.resize(1920, 1080));
    assert_eq!(gc.msaa_framebuffer, None);
    assert_eq!(gc.sample_count, 1);
}

#[test]
fn store_alternates_with_frame_parity() {
    let mut s = ParticleStore::new(1000, true);
    assert_eq!(s.current, 0);
    for n in 0u64..10 {
        assert_eq!(u64::from(s.current), n % 2);
        s.complete_frame();
        assert_eq!(s.frames_completed, n + 1);
    }
    assert_eq!(u64::from(s.current), 10 % 2);
}

#[test]
fn single_buffer_store_never_swaps() {
    let mut s = ParticleStore::new(1000, false);
    assert_eq!(s.buffer_b, None);
    for _ in 0..5 {
        s.complete_frame();
        assert_eq!(s.current, 0);
    }
}

#[test]
fn particle_buffer_size_is_capacity_times_stride() {
    let s = ParticleStore::new(1_048_576, true);
    assert_eq!(s.buffer_a.stride, 64);
    assert_eq!(s.buffer_a.size_bytes, 1_048_576 * 64);
    assert_eq!(s.buffer_b.unwrap().size_bytes, 1_048_576 * 64);
}

#[test]
fn shared_block_layouts_and_groups() {
    let s = Shared::new(4096);
    assert_eq!(s.capacity, 4096);
    assert_eq!(s.uniforms, Uniforms::zeroed());
    assert_eq!(
        s.compute_bind_layout.entries,
        vec![
            LayoutEntry {
                binding: 0,
                visibility: StageAccess::ComputeStage,
                kind: SlotKind::StorageReadWrite,
            },
            LayoutEntry {
                binding: 1,
                visibility: StageAccess::AllStages,
                kind: SlotKind::UniformSlot,
            },
        ]
    );
    assert_eq!(
        s.render_bind_layout.entries,
        vec![
            LayoutEntry {
                binding: 0,
                visibility: StageAccess::AllStages,
                kind: SlotKind::StorageReadOnly,
            },
            LayoutEntry {
                binding: 1,
                visibility: StageAccess::AllStages,
                kind: SlotKind::UniformSlot,
            },
        ]
    );
    let shared_group = vec![
        BindEntry { binding: 0, resource: Resource::HelperBuffer },
        BindEntry { binding: 1, resource: Resource::UniformBuffer },
    ];
    assert_eq!(s.compute_bind_group.entries, shared_group);
    assert_eq!(s.render_bind_group.entries, shared_group);
}

#[test]
fn update_uniforms_replaces_whole_record() {
    let mut s = Shared::new(100);
    let u = Uniforms {
        paused: 0,
        mouse_down: 1,
        mouse_pos_last_x: 0x3E80_0000,
        mouse_pos_last_y: 0x3F00_0000,
    };
    let bytes = s.update_uniforms(u);
    assert_eq!(s.uniforms, u);
    assert_eq!(bytes, u.encode());
    assert_eq!(bytes.len(), 16);
}

#[test]
fn double_buffered_wiring_prebuilds_both_role_groups() {
    let config = SimConfig::new(1000, true, 1, 256);
    let rs = RenderStuff::new(&config);
    assert_eq!(rs.compute.bind_groups.len(), 2);
    assert_eq!(
        rs.compute.bind_groups[0].entries,
        vec![
            BindEntry { binding: 0, resource: Resource::ParticleBuffer { index: 0 } },
            BindEntry { binding: 1, resource: Resource::ParticleBuffer { index: 1 } },
        ]
    );
    assert_eq!(
        rs.compute.bind_groups[1].entries,
        vec![
            BindEntry { binding: 0, resource: Resource::ParticleBuffer { index: 1 } },
            BindEntry { binding: 1, resource: Resource::ParticleBuffer { index: 0 } },
        ]
    );
    assert_eq!(rs.render.bind_groups.len(), 2);
    assert_eq!(
        rs.render.bind_groups[1].entries,
        vec![BindEntry { binding: 0, resource: Resource::ParticleBuffer { index: 1 } }]
    );
}

#[test]
fn single_buffer_wiring_has_one_read_write_group() {
    let config = SimConfig::new(1000, false, 1, 256);
    let rs = RenderStuff::new(&config);
    assert_eq!(rs.compute.bind_groups.len(), 1);
    assert_eq!(
        rs.compute.bind_groups[0].entries,
        vec![BindEntry { binding: 0, resource: Resource::ParticleBuffer { index: 0 } }]
    );
    assert_eq!(rs.compute.bind_group_layout.entries.len(), 1);
    assert_eq!(rs.compute.bind_group_layout.entries[0].kind, SlotKind::StorageReadWrite);
    assert_eq!(rs.render.bind_groups.len(), 1);
}

#[test]
fn pipelines_expose_the_expected_entry_points() {
    let config = SimConfig::new(1000, true, 4, 256);
    let rs = RenderStuff::new(&config);
    assert_eq!(rs.compute.compute_pipeline.entry_point, EntryPoint::StepParticles);
    assert_eq!(rs.compute.emit_pipeline.entry_point, EntryPoint::Emit);
    assert_eq!(rs.compute.compute_pipeline.group_layouts.len(), 2);
    assert_eq!(rs.render.render_pipeline.vertex_entry, EntryPoint::VertexMain);
    assert_eq!(rs.render.render_pipeline.fragment_entry, EntryPoint::FragmentMain);
    assert_eq!(rs.render.render_pipeline.group_layouts.len(), 3);
    assert_eq!(rs.render.render_pipeline.sample_count, 4);
    assert_eq!(
        rs.render.texture_bind_group.entries,
        vec![
            BindEntry { binding: 0, resource: Resource::SpriteTexture },
            BindEntry { binding: 1, resource: Resource::SpriteSampler },
        ]
    );
}
