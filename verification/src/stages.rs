//! Bind-group and pipeline wiring of the compute and render stages.
//!
//! A bind group is an immutable association of shader-visible slots with
//! concrete resources; a pipeline fixes, per bind-group index, the layout
//! it expects. A mismatch between a bound group and the pipeline's layout
//! is fatal at the GPU driver, so the wiring is modeled here and proved
//! consistent by construction. Because the source/destination role of the
//! particle buffers flips between frames, the double-buffered variant
//! prebuilds two bind groups — one per role assignment — and the frame
//! driver selects between them by parity; a bind group's bindings are
//! never patched after creation.
//!
//! Slot contract expected of the compiled shader program: compute group 0
//! binds the particle storage (one read-write buffer, or read-only source
//! at slot 0 and read-write destination at slot 1); group 1 is the shared
//! state block (helper storage at slot 0, uniform block at slot 1); render
//! group 0 is read-only particle storage, group 1 the shared state block,
//! group 2 the sprite texture and its sampler.

use crate::config::SimConfig;
use crate::uniforms::spec_encode;
use crate::uniforms::Uniforms;
use crate::uniforms::UNIFORMS_SIZE;
use vstd::prelude::*;

verus! {

/// Shader stages a binding slot is visible to.
#[derive(Clone, Copy, PartialEq, Eq, Structural, Debug)]
pub enum StageAccess {
    ComputeStage,
    VertexStage,
    FragmentStage,
    AllStages,
}

/// What kind of resource a layout slot accepts.
#[derive(Clone, Copy, PartialEq, Eq, Structural, Debug)]
pub enum SlotKind {
    StorageReadWrite,
    StorageReadOnly,
    UniformSlot,
    TextureUint,
    SamplerNonFiltering,
}

/// One slot of a bind-group layout.
#[derive(Clone, Copy, PartialEq, Eq, Structural, Debug)]
pub struct LayoutEntry {
    pub binding: u32,
    pub visibility: StageAccess,
    pub kind: SlotKind,
}

/// A bind-group layout: the slot contract one bind-group index of a
/// pipeline expects.
#[derive(Debug)]
pub struct BindLayout {
    pub entries: Vec<LayoutEntry>,
}

/// A concrete resource bound into a slot.
#[derive(Clone, Copy, PartialEq, Eq, Structural, Debug)]
pub enum Resource {
    /// Particle storage buffer by index into the store (0 or 1).
    ParticleBuffer { index: u32 },
    /// The helper/metadata storage buffer of the shared state block.
    HelperBuffer,
    /// The uniform buffer of the shared state block.
    UniformBuffer,
    /// The per-particle sprite texture.
    SpriteTexture,
    /// The non-filtering clamp-to-edge sampler of the sprite texture.
    SpriteSampler,
}

/// One slot of a bind group.
#[derive(Clone, Copy, PartialEq, Eq, Structural, Debug)]
pub struct BindEntry {
    pub binding: u32,
    pub resource: Resource,
}

/// A bind group: an immutable snapshot of which resources sit in which
/// slots.
#[derive(Debug)]
pub struct BindGroup {
    pub entries: Vec<BindEntry>,
}

/// Whether a resource is acceptable in a slot of the given kind, with
/// `n_buffers` particle buffers existing.
pub open spec fn resource_matches_kind(r: Resource, k: SlotKind, n_buffers: int) -> bool {
    match r {
        Resource::ParticleBuffer { index } => index < n_buffers && (k is StorageReadWrite
            || k is StorageReadOnly),
        Resource::HelperBuffer => k is StorageReadWrite || k is StorageReadOnly,
        Resource::UniformBuffer => k is UniformSlot,
        Resource::SpriteTexture => k is TextureUint,
        Resource::SpriteSampler => k is SamplerNonFiltering,
    }
}

/// Whether a bind group satisfies a layout: same slots in the same order,
/// each filled with a resource the slot's kind accepts.
pub open spec fn group_matches_layout(g: BindGroup, l: BindLayout, n_buffers: int) -> bool {
    &&& g.entries@.len() == l.entries@.len()
    &&& forall|i: int|
        0 <= i < g.entries@.len() ==> (#[trigger] g.entries@[i]).binding == l.entries@[i].binding
            && resource_matches_kind(g.entries@[i].resource, l.entries@[i].kind, n_buffers)
}

/// Layout of compute group 0 (particle storage): a single read-write
/// buffer, or a read-only source slot and a read-write destination slot in
/// the ping-pong variant.
pub open spec fn is_particle_compute_layout(l: BindLayout, double_buffered: bool) -> bool {
    if double_buffered {
        l.entries@ == seq![
            (LayoutEntry {
                binding: 0,
                visibility: StageAccess::ComputeStage,
                kind: SlotKind::StorageReadOnly,
            }),
            (LayoutEntry {
                binding: 1,
                visibility: StageAccess::ComputeStage,
                kind: SlotKind::StorageReadWrite,
            }),
        ]
    } else {
        l.entries@ == seq![
            (LayoutEntry {
                binding: 0,
                visibility: StageAccess::ComputeStage,
                kind: SlotKind::StorageReadWrite,
            }),
        ]
    }
}

/// Layout of the shared state block as compute passes see it: helper
/// storage at slot 0, uniform block at slot 1.
pub open spec fn is_shared_compute_layout(l: BindLayout) -> bool {
    l.entries@ == seq![
        (LayoutEntry {
            binding: 0,
            visibility: StageAccess::ComputeStage,
            kind: SlotKind::StorageReadWrite,
        }),
        (LayoutEntry { binding: 1, visibility: StageAccess::AllStages, kind: SlotKind::UniformSlot }),
    ]
}

/// Layout of the shared state block as the render pass sees it: the same
/// buffers, read-only, with their own stage visibility.
pub open spec fn is_shared_render_layout(l: BindLayout) -> bool {
    l.entries@ == seq![
        (LayoutEntry {
            binding: 0,
            visibility: StageAccess::AllStages,
            kind: SlotKind::StorageReadOnly,
        }),
        (LayoutEntry { binding: 1, visibility: StageAccess::AllStages, kind: SlotKind::UniformSlot }),
    ]
}

/// Layout of render group 0: read-only particle storage for the vertex
/// stage, which derives all geometry from the particle records.
pub open spec fn is_particle_render_layout(l: BindLayout) -> bool {
    l.entries@ == seq![
        (LayoutEntry {
            binding: 0,
            visibility: StageAccess::VertexStage,
            kind: SlotKind::StorageReadOnly,
        }),
    ]
}

/// Layout of render group 2: sprite texture and its non-filtering sampler
/// for the fragment stage.
pub open spec fn is_texture_layout(l: BindLayout) -> bool {
    l.entries@ == seq![
        (LayoutEntry {
            binding: 0,
            visibility: StageAccess::FragmentStage,
            kind: SlotKind::TextureUint,
        }),
        (LayoutEntry {
            binding: 1,
            visibility: StageAccess::FragmentStage,
            kind: SlotKind::SamplerNonFiltering,
        }),
    ]
}

/// The bind group binding the shared state block: helper buffer at slot 0,
/// uniform buffer at slot 1.
pub open spec fn is_shared_group(g: BindGroup) -> bool {
    g.entries@ == seq![
        (BindEntry { binding: 0, resource: Resource::HelperBuffer }),
        (BindEntry { binding: 1, resource: Resource::UniformBuffer }),
    ]
}

/// Entry points the compiled shader program must expose.
#[derive(Clone, Copy, PartialEq, Eq, Structural, Debug)]
pub enum EntryPoint {
    /// Compute entry spawning new particles.
    Emit,
    /// Compute entry advancing every live particle one tick.
    StepParticles,
    /// Vertex entry deriving three vertices per particle from its record.
    VertexMain,
    /// Fragment entry shading with the sprite texture.
    FragmentMain,
}

/// A compute pipeline: an entry point plus the layouts it expects per
/// bind-group index.
#[derive(Debug)]
pub struct ComputePipeline {
    pub entry_point: EntryPoint,
    pub group_layouts: Vec<BindLayout>,
}

/// The render pipeline: vertex and fragment entries, expected layouts, and
/// the sample count its color target is compiled for — which must equal
/// the sample count of the attachment it is used with.
#[derive(Debug)]
pub struct RenderPipeline {
    pub vertex_entry: EntryPoint,
    pub fragment_entry: EntryPoint,
    pub group_layouts: Vec<BindLayout>,
    pub sample_count: u32,
}

/// The shared state block: the uniform and helper buffers with the two
/// layouts and bind groups every pass consumes.
#[derive(Debug)]
pub struct Shared {
    /// Contents of the helper/metadata buffer: the particle capacity the
    /// compute program bounds-checks against.
    pub capacity: u32,
    /// The record the uniform buffer holds as of the last queued write.
    pub uniforms: Uniforms,
    pub compute_bind_layout: BindLayout,
    pub render_bind_layout: BindLayout,
    pub compute_bind_group: BindGroup,
    pub render_bind_group: BindGroup,
}

impl Shared {
    pub open spec fn wf(self) -> bool {
        &&& is_shared_compute_layout(self.compute_bind_layout)
        &&& is_shared_render_layout(self.render_bind_layout)
        &&& is_shared_group(self.compute_bind_group)
        &&& is_shared_group(self.render_bind_group)
    }

    /// Builds the shared state block: a helper buffer carrying the
    /// capacity, a zero-initialized uniform buffer, and one layout and
    /// bind group per consumer (compute and render), each declaring its
    /// own stage visibility over the same two buffers.
    pub fn new(capacity: u32) -> (s: Shared)
        ensures
            s.wf(),
            s.capacity == capacity,
            s.uniforms == (Uniforms {
                paused: 0,
                mouse_down: 0,
                mouse_pos_last_x: 0,
                mouse_pos_last_y: 0,
            }),
    {
        let compute_bind_layout = shared_compute_layout();
        let render_bind_layout = shared_render_layout();
        let compute_bind_group = shared_group();
        let render_bind_group = shared_group();
        Shared {
            capacity,
            uniforms: Uniforms::zeroed(),
            compute_bind_layout,
            render_bind_layout,
            compute_bind_group,
            render_bind_group,
        }
    }

    /// Replaces the uniform record wholesale — never a partial-field patch
    /// — and returns the 16-byte image to queue into the uniform buffer
    /// before the frame's passes are recorded. Queued writes and the
    /// passes of one submission execute in program order, so every pass of
    /// the frame observes exactly the returned image.
    pub fn update_uniforms(&mut self, new_state: Uniforms) -> (bytes: Vec<u8>)
        requires
            old(self).wf(),
        ensures
            final(self).wf(),
            final(self).uniforms == new_state,
            final(self).capacity == old(self).capacity,
            bytes@ == spec_encode(new_state),
            bytes@.len() == UNIFORMS_SIZE,
    {
        self.uniforms = new_state;
        new_state.encode()
    }
}

/// Builds the compute-visible layout of the shared state block.
pub fn shared_compute_layout() -> (l: BindLayout)
    ensures
        is_shared_compute_layout(l),
{
    let mut entries: Vec<LayoutEntry> = Vec::new();
    entries.push(
        LayoutEntry {
            binding: 0,
            visibility: StageAccess::ComputeStage,
            kind: SlotKind::StorageReadWrite,
        },
    );
    entries.push(
        LayoutEntry { binding: 1, visibility: StageAccess::AllStages, kind: SlotKind::UniformSlot },
    );
    let l = BindLayout { entries };
    proof {
        assert(l.entries@ =~= seq![
            (LayoutEntry {
                binding: 0,
                visibility: StageAccess::ComputeStage,
                kind: SlotKind::StorageReadWrite,
            }),
            (LayoutEntry {
                binding: 1,
                visibility: StageAccess::AllStages,
                kind: SlotKind::UniformSlot,
            }),
        ]);
    }
    l
}

/// Builds the render-visible layout of the shared state block.
pub fn shared_render_layout() -> (l: BindLayout)
    ensures
        is_shared_render_layout(l),
{
    let mut entries: Vec<LayoutEntry> = Vec::new();
    entries.push(
        LayoutEntry {
            binding: 0,
            visibility: StageAccess::AllStages,
            kind: SlotKind::StorageReadOnly,
        },
    );
    entries.push(
        LayoutEntry { binding: 1, visibility: StageAccess::AllStages, kind: SlotKind::UniformSlot },
    );
    let l = BindLayout { entries };
    proof {
        assert(l.entries@ =~= seq![
            (LayoutEntry {
                binding: 0,
                visibility: StageAccess::AllStages,
                kind: SlotKind::StorageReadOnly,
            }),
            (LayoutEntry {
                binding: 1,
                visibility: StageAccess::AllStages,
                kind: SlotKind::UniformSlot,
            }),
        ]);
    }
    l
}

/// The compute stage: the particle-storage layout, one prebuilt bind
/// group per role assignment, and the emit and step pipelines.
#[derive(Debug)]
pub struct Compute {
    pub bind_group_layout: BindLayout,
    /// In the ping-pong variant, group `i` encodes "read buffer `i`,
    /// write buffer `1 - i`"; the frame driver selects by parity. The
    /// single-buffer variant has the one group binding buffer 0
    /// read-write.
    pub bind_groups: Vec<BindGroup>,
    pub emit_pipeline: ComputePipeline,
    pub compute_pipeline: ComputePipeline,
}

/// A pipeline of the compute stage: `step_particles` or `emit` over the
/// particle layout at group 0 and the shared compute layout at group 1.
pub open spec fn is_compute_stage_pipeline(
    p: ComputePipeline,
    entry: EntryPoint,
    double_buffered: bool,
) -> bool {
    &&& p.entry_point == entry
    &&& p.group_layouts@.len() == 2
    &&& is_particle_compute_layout(p.group_layouts@[0], double_buffered)
    &&& is_shared_compute_layout(p.group_layouts@[1])
}

impl Compute {
    pub open spec fn wf(self, double_buffered: bool) -> bool {
        &&& is_particle_compute_layout(self.bind_group_layout, double_buffered)
        &&& if double_buffered {
            &&& self.bind_groups@.len() == 2
            &&& self.bind_groups@[0].entries@ == seq![
                (BindEntry { binding: 0, resource: Resource::ParticleBuffer { index: 0 } }),
                (BindEntry { binding: 1, resource: Resource::ParticleBuffer { index: 1 } }),
            ]
            &&& self.bind_groups@[1].entries@ == seq![
                (BindEntry { binding: 0, resource: Resource::ParticleBuffer { index: 1 } }),
                (BindEntry { binding: 1, resource: Resource::ParticleBuffer { index: 0 } }),
            ]
        } else {
            &&& self.bind_groups@.len() == 1
            &&& self.bind_groups@[0].entries@ == seq![
                (BindEntry { binding: 0, resource: Resource::ParticleBuffer { index: 0 } }),
            ]
        }
        &&& is_compute_stage_pipeline(self.compute_pipeline, EntryPoint::StepParticles, double_buffered)
        &&& is_compute_stage_pipeline(self.emit_pipeline, EntryPoint::Emit, double_buffered)
    }

    /// Builds the compute stage: the particle layout, one bind group per
    /// role assignment (both prebuilt here, never patched afterwards), and
    /// the `step_particles` and `emit` pipelines over that layout and the
    /// shared compute layout.
    pub fn new(double_buffered: bool) -> (c: Compute)
        ensures
            c.wf(double_buffered),
    {
        let bind_group_layout = particle_compute_layout(double_buffered);
        let mut bind_groups: Vec<BindGroup> = Vec::new();
        if double_buffered {
            bind_groups.push(particle_role_group(0));
            bind_groups.push(particle_role_group(1));
        } else {
            bind_groups.push(particle_single_group());
        }
        let compute_pipeline = ComputePipeline {
            entry_point: EntryPoint::StepParticles,
            group_layouts: compute_stage_layouts(double_buffered),
        };
        let emit_pipeline = ComputePipeline {
            entry_point: EntryPoint::Emit,
            group_layouts: compute_stage_layouts(double_buffered),
        };
        Compute { bind_group_layout, bind_groups, emit_pipeline, compute_pipeline }
    }
}

/// Every prebuilt particle bind group of a well-formed compute stage
/// satisfies the particle layout its pipelines expect at group index 0,
/// and the shared bind group satisfies the layout they expect at group
/// index 1: pipeline/bind-group mismatches cannot arise at dispatch time.
pub proof fn lemma_compute_wiring(c: Compute, s: Shared, double_buffered: bool, n_buffers: int)
    requires
        c.wf(double_buffered),
        s.wf(),
        n_buffers == if double_buffered { 2int } else { 1int },
    ensures
        forall|i: int|
            0 <= i < c.bind_groups@.len() ==> group_matches_layout(
                #[trigger] c.bind_groups@[i],
                c.compute_pipeline.group_layouts@[0],
                n_buffers,
            ),
        group_matches_layout(s.compute_bind_group, c.compute_pipeline.group_layouts@[1], n_buffers),
        c.emit_pipeline.group_layouts@[0].entries@ == c.compute_pipeline.group_layouts@[0].entries@,
        c.emit_pipeline.group_layouts@[1].entries@ == c.compute_pipeline.group_layouts@[1].entries@,
{
}

/// Builds the particle-storage layout of the compute stage.
pub fn particle_compute_layout(double_buffered: bool) -> (l: BindLayout)
    ensures
        is_particle_compute_layout(l, double_buffered),
{
    let mut entries: Vec<LayoutEntry> = Vec::new();
    if double_buffered {
        entries.push(
            LayoutEntry {
                binding: 0,
                visibility: StageAccess::ComputeStage,
                kind: SlotKind::StorageReadOnly,
            },
        );
        entries.push(
            LayoutEntry {
                binding: 1,
                visibility: StageAccess::ComputeStage,
                kind: SlotKind::StorageReadWrite,
            },
        );
    } else {
        entries.push(
            LayoutEntry {
                binding: 0,
                visibility: StageAccess::ComputeStage,
                kind: SlotKind::StorageReadWrite,
            },
        );
    }
    let l = BindLayout { entries };
    proof {
        if double_buffered {
            assert(l.entries@ =~= seq![
                (LayoutEntry {
                    binding: 0,
                    visibility: StageAccess::ComputeStage,
                    kind: SlotKind::StorageReadOnly,
                }),
                (LayoutEntry {
                    binding: 1,
                    visibility: StageAccess::ComputeStage,
                    kind: SlotKind::StorageReadWrite,
                }),
            ]);
        } else {
            assert(l.entries@ =~= seq![
                (LayoutEntry {
                    binding: 0,
                    visibility: StageAccess::ComputeStage,
                    kind: SlotKind::StorageReadWrite,
                }),
            ]);
        }
    }
    l
}

/// Builds the ping-pong bind group that reads buffer `source` and writes
/// the other buffer.
pub fn particle_role_group(source: u32) -> (g: BindGroup)
    requires
        source == 0 || source == 1,
    ensures
        g.entries@ == seq![
            (BindEntry { binding: 0, resource: Resource::ParticleBuffer { index: source } }),
            (BindEntry {
                binding: 1,
                resource: (Resource::ParticleBuffer { index: (1 - source) as u32 }),
            }),
        ],
{
    let dest: u32 = 1 - source;
    let mut entries: Vec<BindEntry> = Vec::new();
    entries.push(BindEntry { binding: 0, resource: Resource::ParticleBuffer { index: source } });
    entries.push(BindEntry { binding: 1, resource: Resource::ParticleBuffer { index: dest } });
    let g = BindGroup { entries };
    proof {
        assert(g.entries@ =~= seq![
            (BindEntry { binding: 0, resource: Resource::ParticleBuffer { index: source } }),
            (BindEntry {
                binding: 1,
                resource: (Resource::ParticleBuffer { index: (1 - source) as u32 }),
            }),
        ]);
    }
    g
}

/// Builds the single-buffer bind group: buffer 0, read-write in place.
pub fn particle_single_group() -> (g: BindGroup)
    ensures
        g.entries@ == seq![
            (BindEntry { binding: 0, resource: Resource::ParticleBuffer { index: 0 } }),
        ],
{
    let mut entries: Vec<BindEntry> = Vec::new();
    entries.push(BindEntry { binding: 0, resource: Resource::ParticleBuffer { index: 0 } });
    let g = BindGroup { entries };
    proof {
        assert(g.entries@ =~= seq![
            (BindEntry { binding: 0, resource: Resource::ParticleBuffer { index: 0 } }),
        ]);
    }
    g
}

/// Builds the two-layout list every compute-stage pipeline is created
/// over: particle storage at group 0, shared state at group 1.
pub fn compute_stage_layouts(double_buffered: bool) -> (ls: Vec<BindLayout>)
    ensures
        ls@.len() == 2,
        is_particle_compute_layout(ls@[0], double_buffered),
        is_shared_compute_layout(ls@[1]),
{
    let mut ls: Vec<BindLayout> = Vec::new();
    ls.push(particle_compute_layout(double_buffered));
    ls.push(shared_compute_layout());
    ls
}

/// The render stage: the pipeline drawing the particle population, one
/// read-only particle bind group per buffer, and the sprite-texture bind
/// group.
#[derive(Debug)]
pub struct Render {
    pub render_pipeline: RenderPipeline,
    /// Group `i` exposes particle buffer `i` read-only; the frame driver
    /// selects the buffer the compute stage left valid this frame.
    pub bind_groups: Vec<BindGroup>,
    pub texture_bind_group: BindGroup,
}

impl Render {
    pub open spec fn wf(self, double_buffered: bool, sample_count: u32) -> bool {
        &&& self.render_pipeline.vertex_entry == EntryPoint::VertexMain
        &&& self.render_pipeline.fragment_entry == EntryPoint::FragmentMain
        &&& self.render_pipeline.sample_count == sample_count
        &&& self.render_pipeline.group_layouts@.len() == 3
        &&& is_particle_render_layout(self.render_pipeline.group_layouts@[0])
        &&& is_shared_render_layout(self.render_pipeline.group_layouts@[1])
        &&& is_texture_layout(self.render_pipeline.group_layouts@[2])
        &&& self.bind_groups@.len() == if double_buffered {
            2int
        } else {
            1int
        }
        &&& forall|i: int|
            0 <= i < self.bind_groups@.len() ==> (#[trigger] self.bind_groups@[i]).entries@ == seq![
                (BindEntry { binding: 0, resource: (Resource::ParticleBuffer { index: i as u32 }) }),
            ]
        &&& self.texture_bind_group.entries@ == seq![
            (BindEntry { binding: 0, resource: Resource::SpriteTexture }),
            (BindEntry { binding: 1, resource: Resource::SpriteSampler }),
        ]
    }

    /// Builds the render stage: the sprite texture group, one read-only
    /// particle group per buffer, and the render pipeline compiled for the
    /// context's sample count over the three expected layouts.
    pub fn new(double_buffered: bool, sample_count: u32) -> (r: Render)
        ensures
            r.wf(double_buffered, sample_count),
    {
        let mut bind_groups: Vec<BindGroup> = Vec::new();
        bind_groups.push(particle_read_group(0));
        if double_buffered {
            bind_groups.push(particle_read_group(1));
        }
        let mut group_layouts: Vec<BindLayout> = Vec::new();
        group_layouts.push(particle_render_layout());
        group_layouts.push(shared_render_layout());
        group_layouts.push(texture_layout());
        let render_pipeline = RenderPipeline {
            vertex_entry: EntryPoint::VertexMain,
            fragment_entry: EntryPoint::FragmentMain,
            group_layouts,
            sample_count,
        };
        let texture_bind_group = texture_group();
        Render { render_pipeline, bind_groups, texture_bind_group }
    }
}

/// Every particle bind group of a well-formed render stage satisfies the
/// read-only particle layout the pipeline expects at group index 0, and
/// the shared and texture groups satisfy the layouts at indices 1 and 2.
pub proof fn lemma_render_wiring(r: Render, s: Shared, double_buffered: bool, n_buffers: int)
    requires
        r.wf(double_buffered, r.render_pipeline.sample_count),
        s.wf(),
        n_buffers == if double_buffered { 2int } else { 1int },
    ensures
        forall|i: int|
            0 <= i < r.bind_groups@.len() ==> group_matches_layout(
                #[trigger] r.bind_groups@[i],
                r.render_pipeline.group_layouts@[0],
                n_buffers,
            ),
        group_matches_layout(s.render_bind_group, r.render_pipeline.group_layouts@[1], n_buffers),
        group_matches_layout(
            r.texture_bind_group,
            r.render_pipeline.group_layouts@[2],
            n_buffers,
        ),
{
}

/// Builds the read-only bind group exposing particle buffer `index` to
/// the vertex stage.
pub fn particle_read_group(index: u32) -> (g: BindGroup)
    ensures
        g.entries@ == seq![
            (BindEntry { binding: 0, resource: (Resource::ParticleBuffer { index }) }),
        ],
{
    let mut entries: Vec<BindEntry> = Vec::new();
    entries.push(BindEntry { binding: 0, resource: Resource::ParticleBuffer { index } });
    let g = BindGroup { entries };
    proof {
        assert(g.entries@ =~= seq![
            (BindEntry { binding: 0, resource: (Resource::ParticleBuffer { index }) }),
        ]);
    }
    g
}

/// Builds the render stage's read-only particle layout.
pub fn particle_render_layout() -> (l: BindLayout)
    ensures
        is_particle_render_layout(l),
{
    let mut entries: Vec<LayoutEntry> = Vec::new();
    entries.push(
        LayoutEntry {
            binding: 0,
            visibility: StageAccess::VertexStage,
            kind: SlotKind::StorageReadOnly,
        },
    );
    let l = BindLayout { entries };
    proof {
        assert(l.entries@ =~= seq![
            (LayoutEntry {
                binding: 0,
                visibility: StageAccess::VertexStage,
                kind: SlotKind::StorageReadOnly,
            }),
        ]);
    }
    l
}

/// Builds the sprite texture-and-sampler layout.
pub fn texture_layout() -> (l: BindLayout)
    ensures
        is_texture_layout(l),
{
    let mut entries: Vec<LayoutEntry> = Vec::new();
    entries.push(
        LayoutEntry {
            binding: 0,
            visibility: StageAccess::FragmentStage,
            kind: SlotKind::TextureUint,
        },
    );
    entries.push(
        LayoutEntry {
            binding: 1,
            visibility: StageAccess::FragmentStage,
            kind: SlotKind::SamplerNonFiltering,
        },
    );
    let l = BindLayout { entries };
    proof {
        assert(l.entries@ =~= seq![
            (LayoutEntry {
                binding: 0,
                visibility: StageAccess::FragmentStage,
                kind: SlotKind::TextureUint,
            }),
            (LayoutEntry {
                binding: 1,
                visibility: StageAccess::FragmentStage,
                kind: SlotKind::SamplerNonFiltering,
            }),
        ]);
    }
    l
}

/// Builds the bind group holding the sprite texture and its sampler.
pub fn texture_group() -> (g: BindGroup)
    ensures
        g.entries@ == seq![
            (BindEntry { binding: 0, resource: Resource::SpriteTexture }),
            (BindEntry { binding: 1, resource: Resource::SpriteSampler }),
        ],
{
    let mut entries: Vec<BindEntry> = Vec::new();
    entries.push(BindEntry { binding: 0, resource: Resource::SpriteTexture });
    entries.push(BindEntry { binding: 1, resource: Resource::SpriteSampler });
    let g = BindGroup { entries };
    proof {
        assert(g.entries@ =~= seq![
            (BindEntry { binding: 0, resource: Resource::SpriteTexture }),
            (BindEntry { binding: 1, resource: Resource::SpriteSampler }),
        ]);
    }
    g
}

/// Everything the pipelines stage owns: the shared state block and the
/// compute and render stages, wired over it.
#[derive(Debug)]
pub struct RenderStuff {
    pub shared: Shared,
    pub compute: Compute,
    pub render: Render,
}

impl RenderStuff {
    pub open spec fn wf(self, config: SimConfig) -> bool {
        &&& self.shared.wf()
        &&& self.shared.capacity == config.particle_count
        &&& self.compute.wf(config.double_buffered)
        &&& self.render.wf(config.double_buffered, config.sample_count)
    }

    /// Builds the whole GPU-resource wiring for one configuration: the
    /// shared state block first, then the compute stage over its compute
    /// layout and the render stage over its render layout.
    pub fn new(config: &SimConfig) -> (rs: RenderStuff)
        requires
            config.wf(),
        ensures
            rs.wf(*config),
            rs.shared.uniforms == (Uniforms {
                paused: 0,
                mouse_down: 0,
                mouse_pos_last_x: 0,
                mouse_pos_last_y: 0,
            }),
    {
        let shared = Shared::new(config.particle_count);
        let compute = Compute::new(config.double_buffered);
        let render = Render::new(config.double_buffered, config.sample_count);
        RenderStuff { shared, compute, render }
    }
}

/// Builds the bind group exposing the shared state block's two buffers.
pub fn shared_group() -> (g: BindGroup)
    ensures
        is_shared_group(g),
{
    let mut entries: Vec<BindEntry> = Vec::new();
    entries.push(BindEntry { binding: 0, resource: Resource::HelperBuffer });
    entries.push(BindEntry { binding: 1, resource: Resource::UniformBuffer });
    let g = BindGroup { entries };
    proof {
        assert(g.entries@ =~= seq![
            (BindEntry { binding: 0, resource: Resource::HelperBuffer }),
            (BindEntry { binding: 1, resource: Resource::UniformBuffer }),
        ]);
    }
    g
}

} // verus!
