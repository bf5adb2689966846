use vstd::prelude::*;
use crate::transform::{F32_ONE, F32_ZERO};

verus! {

/// Why the next presentable surface texture could not be acquired.
#[derive(Debug, Clone, Copy, PartialEq, Eq, Structural)]
pub enum SurfaceError {
    /// No frame became available in time.
    Timeout,
    /// The surface no longer matches its target and must be reconfigured.
    Outdated,
    /// The surface was lost and must be reconfigured.
    Lost,
    /// The device ran out of memory.
    OutOfMemory,
}

/// A surface error after which reconfiguring and retrying the frame can
/// succeed; running out of memory is fatal.
pub open spec fn recoverable(e: SurfaceError) -> bool {
    e != SurfaceError::OutOfMemory
}

impl SurfaceError {
    pub fn is_recoverable(&self) -> (r: bool)
        ensures
            r == recoverable(*self),
    {
        match self {
            SurfaceError::OutOfMemory => false,
            _ => true,
        }
    }
}

/// Where a renderer is in its life.
#[derive(Debug, Clone, Copy, PartialEq, Eq, Structural)]
pub enum FrameState {
    Uninitialized,
    Ready,
    Rendering,
    Disposed,
}

/// A bind group and the slot the pipeline layout gives it.
#[derive(Debug, Clone, Copy, PartialEq, Eq, Structural)]
pub enum BindGroup {
    /// Texture and sampler.
    Texture,
    /// Camera uniforms.
    Camera,
}

/// An RGBA colour as single-precision bit patterns.
#[derive(Debug, Clone, Copy, PartialEq, Eq, Structural)]
pub struct Rgba {
    pub r: u32,
    pub g: u32,
    pub b: u32,
    pub a: u32,
}

/// Opaque black.
pub open spec fn black() -> Rgba {
    Rgba { r: F32_ZERO, g: F32_ZERO, b: F32_ZERO, a: F32_ONE }
}

/// One step of a frame, performed by whoever owns the device.
#[derive(Debug, Clone, Copy, PartialEq, Eq, Structural)]
pub enum RenderCommand {
    /// Create a view of the acquired surface texture.
    CreateView,
    /// Begin a render pass that clears the view to `clear`, with no depth
    /// attachment.
    BeginPass { clear: Rgba },
    /// Upload this frame's camera data.
    UpdateCamera,
    SetPipeline,
    SetBindGroup { index: u32, group: BindGroup },
    /// Bind the static vertex buffer at `slot`.
    SetVertexBuffer { slot: u32 },
    /// Bind the index buffer of 16-bit indices.
    SetIndexBuffer,
    /// Draw indices `0..index_count` for instances `0..instance_count`.
    DrawIndexed { index_count: u32, instance_count: u32 },
    EndPass,
    Submit,
    /// Present the acquired surface texture.
    Present,
}

/// The commands of one frame, in the order the pipeline layout requires.
pub open spec fn frame_commands(index_count: u32) -> Seq<RenderCommand> {
    seq![
        RenderCommand::CreateView,
        RenderCommand::BeginPass { clear: black() },
        RenderCommand::UpdateCamera,
        RenderCommand::SetPipeline,
        RenderCommand::SetBindGroup { index: 0, group: BindGroup::Texture },
        RenderCommand::SetBindGroup { index: 1, group: BindGroup::Camera },
        RenderCommand::SetVertexBuffer { slot: 0 },
        RenderCommand::SetIndexBuffer,
        RenderCommand::DrawIndexed { index_count, instance_count: 1 },
        RenderCommand::EndPass,
        RenderCommand::Submit,
        RenderCommand::Present,
    ]
}

/// The decisions of a renderer: which state it is in and what each frame
/// does. The device work itself is carried out by the owner of the device.
pub struct FrameRenderer {
    state: FrameState,
    index_count: u32,
}

impl FrameRenderer {
    pub closed spec fn state_spec(&self) -> FrameState {
        self.state
    }

    pub closed spec fn index_count_spec(&self) -> u32 {
        self.index_count
    }

    /// A renderer for static geometry of `index_count` indices, not yet set up.
    pub fn new(index_count: u32) -> (r: Self)
        ensures
            r.state_spec() == FrameState::Uninitialized,
            r.index_count_spec() == index_count,
    {
        FrameRenderer { state: FrameState::Uninitialized, index_count }
    }

    pub fn state(&self) -> (r: FrameState)
        ensures
            r == self.state_spec(),
    {
        self.state
    }

    pub fn index_count(&self) -> (r: u32)
        ensures
            r == self.index_count_spec(),
    {
        self.index_count
    }

    /// Device, surface and pipeline are set up: the renderer is ready.
    pub fn initialized(&mut self)
        requires
            old(self).state_spec() == FrameState::Uninitialized,
        ensures
            final(self).state_spec() == FrameState::Ready,
            final(self).index_count_spec() == old(self).index_count_spec(),
    {
        self.state = FrameState::Ready;
    }

    /// Starts a frame given the outcome of acquiring the surface texture.
    /// On success the frame's commands come back and the renderer is
    /// rendering; on failure the error comes back and the renderer stays ready.
    pub fn begin_frame(&mut self, acquired: Result<(), SurfaceError>) -> (r: Result<Vec<RenderCommand>, SurfaceError>)
        requires
            old(self).state_spec() == FrameState::Ready,
        ensures
            final(self).index_count_spec() == old(self).index_count_spec(),
            match acquired {
                Ok(_) => {
                    &&& r is Ok
                    &&& r->Ok_0@ == frame_commands(old(self).index_count_spec())
                    &&& final(self).state_spec() == FrameState::Rendering
                },
                Err(e) => {
                    &&& r == Err::<Vec<RenderCommand>, SurfaceError>(e)
                    &&& final(self).state_spec() == FrameState::Ready
                },
            },
    {
        match acquired {
            Err(e) => Err(e),
            Ok(()) => {
                let mut cmds: Vec<RenderCommand> = Vec::new();
                cmds.push(RenderCommand::CreateView);
                cmds.push(RenderCommand::BeginPass {
                    clear: Rgba { r: F32_ZERO, g: F32_ZERO, b: F32_ZERO, a: F32_ONE },
                });
                cmds.push(RenderCommand::UpdateCamera);
                cmds.push(RenderCommand::SetPipeline);
                cmds.push(RenderCommand::SetBindGroup { index: 0, group: BindGroup::Texture });
                cmds.push(RenderCommand::SetBindGroup { index: 1, group: BindGroup::Camera });
                cmds.push(RenderCommand::SetVertexBuffer { slot: 0 });
                cmds.push(RenderCommand::SetIndexBuffer);
                cmds.push(RenderCommand::DrawIndexed { index_count: self.index_count, instance_count: 1 });
                cmds.push(RenderCommand::EndPass);
                cmds.push(RenderCommand::Submit);
                cmds.push(RenderCommand::Present);
                assert(cmds@ =~= frame_commands(self.index_count));
                self.state = FrameState::Rendering;
                Ok(cmds)
            },
        }
    }

    /// The frame's commands were carried out: the renderer is ready again.
    pub fn finish_frame(&mut self)
        requires
            old(self).state_spec() == FrameState::Rendering,
        ensures
            final(self).state_spec() == FrameState::Ready,
            final(self).index_count_spec() == old(self).index_count_spec(),
    {
        self.state = FrameState::Ready;
    }

    /// Per-frame advancement before rendering; nothing moves on its own yet,
    /// so the renderer is unchanged.
    pub fn update(&mut self)
        ensures
            *final(self) == *old(self),
    {
    }

    /// Tears the renderer down.
    pub fn dispose(&mut self)
        requires
            old(self).state_spec() == FrameState::Ready,
        ensures
            final(self).state_spec() == FrameState::Disposed,
            final(self).index_count_spec() == old(self).index_count_spec(),
    {
        self.state = FrameState::Disposed;
    }
}

} // verus!
