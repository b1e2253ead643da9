//! The surface configuration: size, format, usage and pacing of the images
//! that the window presents.

use vstd::prelude::*;
use crate::descriptor::{
    PresentMode,
    TextureFormat,
    TextureUsages,
    spec_target_format,
    target_format,
};

verus! {

/// How the surface is configured. The shell applies these fields to the
/// configuration that the surface proposes and leaves the others as proposed.
#[derive(Clone, Copy, Debug, PartialEq, Eq, Structural)]
pub struct SurfaceConfig {
    pub width: u32,
    pub height: u32,
    pub format: TextureFormat,
    pub usage: TextureUsages,
    pub present_mode: PresentMode,
}

/// A dimension as the surface takes it: a window may report 0, a surface
/// cannot have it.
pub open spec fn spec_clamp_dimension(v: u32) -> u32 {
    if v < 1 {
        1
    } else {
        v
    }
}

/// The pacing that the `turbo` switch selects.
pub open spec fn spec_present_mode(turbo: bool) -> PresentMode {
    if turbo {
        PresentMode::AutoNoVsync
    } else {
        PresentMode::AutoVsync
    }
}

impl SurfaceConfig {
    /// A configuration that a surface can take and that frames can be planned
    /// for: no dimension is zero, and the surface image may receive a copy.
    pub open spec fn wf(self) -> bool {
        &&& self.width >= 1
        &&& self.height >= 1
        &&& self.usage.copy_dst
    }

    /// Whether the device accepts the copy of an offscreen target to the
    /// surface image: the surface's format is that of the targets, up to the
    /// encoding.
    pub open spec fn spec_accepts_targets(self) -> bool {
        spec_target_format().spec_copy_compatible(self.format)
    }

    pub fn accepts_targets(&self) -> (accepts: bool)
        ensures
            accepts == self.spec_accepts_targets(),
    {
        target_format().copy_compatible(self.format)
    }

    /// The same configuration for a window of another size.
    pub open spec fn spec_with_size(self, width: u32, height: u32) -> SurfaceConfig {
        SurfaceConfig {
            width: spec_clamp_dimension(width),
            height: spec_clamp_dimension(height),
            ..self
        }
    }

    pub fn with_size(self, width: u32, height: u32) -> (config: SurfaceConfig)
        ensures
            config == self.spec_with_size(width, height),
            self.wf() ==> config.wf(),
    {
        SurfaceConfig {
            width: clamp_dimension(width),
            height: clamp_dimension(height),
            format: self.format,
            usage: self.usage,
            present_mode: self.present_mode,
        }
    }
}

pub fn clamp_dimension(v: u32) -> (r: u32)
    ensures
        r == spec_clamp_dimension(v),
        r >= 1,
        v >= 1 ==> r == v,
{
    if v < 1 {
        1
    } else {
        v
    }
}

pub fn present_mode(turbo: bool) -> (mode: PresentMode)
    ensures
        mode == spec_present_mode(turbo),
{
    if turbo {
        PresentMode::AutoNoVsync
    } else {
        PresentMode::AutoVsync
    }
}

/// Clamping a size that is already clamped changes nothing.
pub proof fn lemma_clamp_idempotent(v: u32)
    ensures
        spec_clamp_dimension(spec_clamp_dimension(v)) == spec_clamp_dimension(v),
        spec_clamp_dimension(v) >= 1,
{
}

} // verus!
