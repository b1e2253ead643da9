//! The commands that the library hands to the shell. A plan is a sequence of
//! them; the shell carries them out in order, on the device, the queue, the
//! surface and the window, and decides nothing.

use vstd::prelude::*;
use crate::descriptor::{
    BindGroupDescriptor,
    BindGroupLayoutEntry,
    BufferDescriptor,
    ComputePipelineDescriptor,
    Extent3d,
    TextureDescriptor,
};
use crate::surface::SurfaceConfig;

verus! {

/// What the window is asked to be.
#[derive(Clone, Copy, Debug, PartialEq, Eq, Structural)]
pub enum Fullscreen {
    Windowed,
    Borderless,
}

/// The bind group layout of the pipeline: the position buffer and the
/// offscreen target.
#[derive(Clone, Copy, Debug, PartialEq, Eq, Structural)]
pub struct BindGroupLayoutDescriptor {
    pub positions: BindGroupLayoutEntry,
    pub target: BindGroupLayoutEntry,
}

/// Something that the render context holds and gives up when it is torn down.
#[derive(Clone, Copy, Debug, PartialEq, Eq, Structural)]
pub enum Resource {
    ComputePipeline,
    BindGroup { slot: usize },
    Texture { slot: usize },
    Buffer { slot: usize },
    BindGroupLayout,
    Queue,
    Device,
    Surface,
    Window,
}

#[allow(inconsistent_fields)]
#[derive(Clone, Copy, Debug, PartialEq, Eq)]
pub enum Command {
    /// Configure the surface; the shell keeps every field that the
    /// configuration does not name as the surface proposed it.
    ConfigureSurface { config: SurfaceConfig },
    /// Create the bind group layout that every bind group and the pipeline
    /// use.
    CreateBindGroupLayout { descriptor: BindGroupLayoutDescriptor },
    /// Compile the shader and create the pipeline.
    CreateComputePipeline { descriptor: ComputePipelineDescriptor },
    /// Create the position buffer of a slot.
    CreateBuffer { slot: usize, descriptor: BufferDescriptor },
    /// Create the offscreen target of a slot, in place of the one it had.
    CreateTexture { slot: usize, descriptor: TextureDescriptor },
    /// Create the bind group of a slot, in place of the one it had.
    CreateBindGroup { slot: usize, descriptor: BindGroupDescriptor },
    /// Write these bytes, the encoded points, to the slot's position buffer:
    /// all of them, from its start.
    WritePositions { slot: usize, bytes: [u8; 64] },
    /// Acquire the next image of the surface.
    AcquireSurfaceTexture,
    /// Record a compute pass with the pipeline and the slot's bind group, and
    /// dispatch this many workgroups.
    DispatchCompute { slot: usize, x: u32, y: u32, z: u32 },
    /// Record the copy of the slot's offscreen target to the acquired image.
    CopyTextureToSurface { slot: usize, extent: Extent3d },
    /// Submit what was recorded.
    Submit,
    /// Present the acquired image.
    Present,
    /// Report the frame rate: the reciprocal of this time between two frames.
    PrintFrameRate { frame_nanos: u64 },
    /// Ask the window for another redraw.
    RequestRedraw,
    /// Switch the window between windowed and borderless fullscreen.
    SetFullscreen { mode: Fullscreen },
    /// Leave the event loop.
    Exit,
    /// Let go of a resource, now and not when its owner goes out of scope.
    Release { resource: Resource },
}

} // verus!
