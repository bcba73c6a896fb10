//! The frame orchestrator: surface configuration, the per-frame lifecycle,
//! and the command sequence of one render pass.
//!
//! The GPU itself is an external collaborator. This module decides — the
//! surface size after a resize, what to do with each acquisition outcome,
//! and the exact order of pass commands — and the thin layer around the
//! library carries those decisions to the backend.

use vstd::prelude::*;
use crate::mesh::{Mesh, ByteRange};

verus! {

/// Background clear color, micro-units per channel (0.1, 0.8, 0.7, 1.0).
pub const CLEAR_R: i64 = 100_000;

/// Green channel of the background clear color.
pub const CLEAR_G: i64 = 800_000;

/// Blue channel of the background clear color.
pub const CLEAR_B: i64 = 700_000;

/// Alpha channel of the background clear color.
pub const CLEAR_A: i64 = 1_000_000;

/// The depth buffer clears to the far plane.
pub const CLEAR_DEPTH: i64 = 1_000_000;

/// Bind-group slot of the camera uniform.
pub const CAMERA_BIND_SLOT: u32 = 0;

/// Bind-group slot of the material.
pub const MATERIAL_BIND_SLOT: u32 = 1;

/// The pixel size the presentable surface is configured with.
#[derive(Clone, Copy, PartialEq, Eq, Structural, Debug)]
pub struct SurfaceConfig {
    pub width: u32,
    pub height: u32,
}

/// The per-frame lifecycle of the surface, from startup through steady state.
#[derive(Clone, Copy, PartialEq, Eq, Structural, Debug)]
pub enum FramePhase {
    Uninitialized,
    Ready,
    Acquiring,
    Recording,
    Submitted,
    Presented,
    Resizing,
    Fatal,
}

/// What happened to the frame lifecycle since the last step.
#[derive(Clone, Copy, PartialEq, Eq, Structural, Debug)]
pub enum FrameEvent {
    Initialized,
    FrameBegun,
    ImageAcquired,
    AcquireFailedRecoverable,
    AcquireFailedFatal,
    WorkSubmitted,
    ImagePresented,
    FrameCompleted,
    ResizeRequested,
    SurfaceReconfigured,
}

/// The lifecycle transition table: initialization leads to `Ready`; a frame
/// runs `Acquiring`, `Recording`, `Submitted`, `Presented` and back to
/// `Ready`; a resize or a recoverable acquisition failure passes through
/// `Resizing`; an unrecoverable failure is `Fatal`. An event that does not
/// belong to the current phase changes nothing.
pub open spec fn spec_phase_step(p: FramePhase, e: FrameEvent) -> FramePhase {
    match (p, e) {
        (FramePhase::Uninitialized, FrameEvent::Initialized) => FramePhase::Ready,
        (FramePhase::Ready, FrameEvent::FrameBegun) => FramePhase::Acquiring,
        (FramePhase::Acquiring, FrameEvent::ImageAcquired) => FramePhase::Recording,
        (FramePhase::Acquiring, FrameEvent::AcquireFailedRecoverable) => FramePhase::Resizing,
        (FramePhase::Acquiring, FrameEvent::AcquireFailedFatal) => FramePhase::Fatal,
        (FramePhase::Recording, FrameEvent::WorkSubmitted) => FramePhase::Submitted,
        (FramePhase::Submitted, FrameEvent::ImagePresented) => FramePhase::Presented,
        (FramePhase::Presented, FrameEvent::FrameCompleted) => FramePhase::Ready,
        (FramePhase::Ready, FrameEvent::ResizeRequested) => FramePhase::Resizing,
        (FramePhase::Resizing, FrameEvent::SurfaceReconfigured) => FramePhase::Ready,
        _ => p,
    }
}

/// Step the frame lifecycle by one event.
pub fn next_phase(p: FramePhase, e: FrameEvent) -> (r: FramePhase)
    ensures
        r == spec_phase_step(p, e),
{
    match (p, e) {
        (FramePhase::Uninitialized, FrameEvent::Initialized) => FramePhase::Ready,
        (FramePhase::Ready, FrameEvent::FrameBegun) => FramePhase::Acquiring,
        (FramePhase::Acquiring, FrameEvent::ImageAcquired) => FramePhase::Recording,
        (FramePhase::Acquiring, FrameEvent::AcquireFailedRecoverable) => FramePhase::Resizing,
        (FramePhase::Acquiring, FrameEvent::AcquireFailedFatal) => FramePhase::Fatal,
        (FramePhase::Recording, FrameEvent::WorkSubmitted) => FramePhase::Submitted,
        (FramePhase::Submitted, FrameEvent::ImagePresented) => FramePhase::Presented,
        (FramePhase::Presented, FrameEvent::FrameCompleted) => FramePhase::Ready,
        (FramePhase::Ready, FrameEvent::ResizeRequested) => FramePhase::Resizing,
        (FramePhase::Resizing, FrameEvent::SurfaceReconfigured) => FramePhase::Ready,
        (_, _) => p,
    }
}

/// How acquiring the next presentable image went; the error kinds mirror the
/// backend's surface errors.
#[derive(Clone, Copy, PartialEq, Eq, Structural, Debug)]
pub enum AcquireOutcome {
    Acquired,
    TimedOut,
    Outdated,
    Lost,
    OutOfMemory,
}

/// One recorded step of a render pass, in terms of slots and byte ranges;
/// the layer around the library binds the real handles.
#[derive(Clone, Copy, PartialEq, Eq, Structural, Debug)]
pub enum RenderCommand {
    BeginRenderPass { clear_r: i64, clear_g: i64, clear_b: i64, clear_a: i64, with_depth: bool, clear_depth: i64 },
    SetPipeline,
    SetBindGroup { slot: u32 },
    SetVertexBuffer { slot: u32, range: ByteRange },
    SetIndexBuffer { range: ByteRange },
    DrawIndexed { index_count: u32 },
    EndRenderPass,
    Submit,
    Present,
}

/// The exact command sequence of one frame: clear, bind the pipeline, the
/// camera and material groups at their fixed slots, each attribute stream at
/// its fixed slot, the index stream, then one indexed draw over the whole
/// mesh, submit and present.
pub open spec fn spec_frame_commands(m: Mesh, with_depth: bool) -> Seq<RenderCommand> {
    seq![
        RenderCommand::BeginRenderPass {
            clear_r: CLEAR_R,
            clear_g: CLEAR_G,
            clear_b: CLEAR_B,
            clear_a: CLEAR_A,
            with_depth,
            clear_depth: CLEAR_DEPTH,
        },
        RenderCommand::SetPipeline,
        RenderCommand::SetBindGroup { slot: CAMERA_BIND_SLOT },
        RenderCommand::SetBindGroup { slot: MATERIAL_BIND_SLOT },
        RenderCommand::SetVertexBuffer { slot: 0, range: m.position_range },
        RenderCommand::SetVertexBuffer { slot: 1, range: m.normal_range },
        RenderCommand::SetVertexBuffer { slot: 2, range: m.tangent_range },
        RenderCommand::SetVertexBuffer { slot: 3, range: m.texcoord_range },
        RenderCommand::SetIndexBuffer { range: m.index_range },
        RenderCommand::DrawIndexed { index_count: m.index_count },
        RenderCommand::EndRenderPass,
        RenderCommand::Submit,
        RenderCommand::Present,
    ]
}

/// What the caller is to do with this frame.
pub enum FramePlan {
    Draw(Vec<RenderCommand>),
    Reconfigure,
    Skip,
    Fatal,
}

/// The render state the library tracks for the frame orchestrator: the
/// surface configuration, and whether the surface currently matches it.
#[derive(Clone, Copy, PartialEq, Eq, Structural, Debug)]
pub struct RendererState {
    pub surface_config: SurfaceConfig,
    pub surface_ready: bool,
}

impl RendererState {
    /// The state right after the backend configured the surface to the
    /// window's pixel size.
    pub fn new(width: u32, height: u32) -> (s: RendererState)
        ensures
            s.surface_config == (SurfaceConfig { width, height }),
            s.surface_ready,
    {
        RendererState { surface_config: SurfaceConfig { width, height }, surface_ready: true }
    }

    /// Adopt a new window size and ask for reconfiguration. A degenerate size
    /// (a minimized window) is a deliberate no-op, not an error.
    pub fn resize(&mut self, width: u32, height: u32)
        ensures
            width > 0 && height > 0 ==> final(self).surface_config == (SurfaceConfig {
                width,
                height,
            }) && final(self).surface_ready,
            width == 0 || height == 0 ==> *final(self) == *old(self),
    {
        if width > 0 && height > 0 {
            self.surface_config = SurfaceConfig { width, height };
            self.surface_ready = true;
        }
    }

    /// Plan one frame from the acquisition outcome: draw on success; on an
    /// outdated or lost surface skip the draw and reconfigure, retrying next
    /// frame; on a timeout merely skip; on exhausted memory give up.
    pub fn render(&mut self, acquire: AcquireOutcome, mesh: &Mesh, with_depth: bool) -> (plan:
        FramePlan)
        requires
            mesh.wf(),
        ensures
            final(self).surface_config == old(self).surface_config,
            acquire is Acquired ==> (plan matches FramePlan::Draw(cmds) && cmds@
                == spec_frame_commands(*mesh, with_depth)) && *final(self) == *old(self),
            acquire is Outdated || acquire is Lost ==> plan is Reconfigure && final(
                self).surface_ready == false,
            acquire is TimedOut ==> plan is Skip && *final(self) == *old(self),
            acquire is OutOfMemory ==> plan is Fatal && *final(self) == *old(self),
    {
        match acquire {
            AcquireOutcome::Acquired => FramePlan::Draw(record_frame_commands(mesh, with_depth)),
            AcquireOutcome::Outdated | AcquireOutcome::Lost => {
                self.surface_ready = false;
                FramePlan::Reconfigure
            },
            AcquireOutcome::TimedOut => FramePlan::Skip,
            AcquireOutcome::OutOfMemory => FramePlan::Fatal,
        }
    }
}

/// Record the command sequence of one frame over the mesh's byte ranges.
pub fn record_frame_commands(mesh: &Mesh, with_depth: bool) -> (cmds: Vec<RenderCommand>)
    requires
        mesh.wf(),
    ensures
        cmds@ == spec_frame_commands(*mesh, with_depth),
{
    let mut cmds: Vec<RenderCommand> = Vec::new();
    cmds.push(
        RenderCommand::BeginRenderPass {
            clear_r: CLEAR_R,
            clear_g: CLEAR_G,
            clear_b: CLEAR_B,
            clear_a: CLEAR_A,
            with_depth,
            clear_depth: CLEAR_DEPTH,
        },
    );
    cmds.push(RenderCommand::SetPipeline);
    cmds.push(RenderCommand::SetBindGroup { slot: CAMERA_BIND_SLOT });
    cmds.push(RenderCommand::SetBindGroup { slot: MATERIAL_BIND_SLOT });
    cmds.push(RenderCommand::SetVertexBuffer { slot: 0, range: mesh.position_range });
    cmds.push(RenderCommand::SetVertexBuffer { slot: 1, range: mesh.normal_range });
    cmds.push(RenderCommand::SetVertexBuffer { slot: 2, range: mesh.tangent_range });
    cmds.push(RenderCommand::SetVertexBuffer { slot: 3, range: mesh.texcoord_range });
    cmds.push(RenderCommand::SetIndexBuffer { range: mesh.index_range });
    cmds.push(RenderCommand::DrawIndexed { index_count: mesh.index_count });
    cmds.push(RenderCommand::EndRenderPass);
    cmds.push(RenderCommand::Submit);
    cmds.push(RenderCommand::Present);
    proof {
        assert(cmds@ =~= spec_frame_commands(*mesh, with_depth));
    }
    cmds
}

} // verus!
