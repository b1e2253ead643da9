//! Plain descriptions of the GPU objects that the pipeline creates. The shell
//! turns each into the device's own descriptor, field by field.

use vstd::prelude::*;

verus! {

/// The pixel formats that a surface may report for its images.
#[derive(Clone, Copy, Debug, PartialEq, Eq, Structural)]
pub enum TextureFormat {
    Rgba8Unorm,
    Rgba8UnormSrgb,
    Rgba8Snorm,
    Bgra8Unorm,
    Bgra8UnormSrgb,
    Rgb10a2Unorm,
    Rgba16Unorm,
    Rgba16Snorm,
    Rgba16Float,
}

impl TextureFormat {
    /// The format with the same texels and a linear encoding.
    pub open spec fn spec_without_srgb(self) -> TextureFormat {
        match self {
            TextureFormat::Rgba8UnormSrgb => TextureFormat::Rgba8Unorm,
            TextureFormat::Bgra8UnormSrgb => TextureFormat::Bgra8Unorm,
            _ => self,
        }
    }

    /// Whether a texture of this format can be copied to one of the other:
    /// the two formats are the same, or differ in the encoding only.
    pub open spec fn spec_copy_compatible(self, other: TextureFormat) -> bool {
        self.spec_without_srgb() == other.spec_without_srgb()
    }

    pub fn without_srgb(self) -> (format: TextureFormat)
        ensures
            format == self.spec_without_srgb(),
    {
        match self {
            TextureFormat::Rgba8UnormSrgb => TextureFormat::Rgba8Unorm,
            TextureFormat::Bgra8UnormSrgb => TextureFormat::Bgra8Unorm,
            _ => self,
        }
    }

    pub fn copy_compatible(self, other: TextureFormat) -> (compatible: bool)
        ensures
            compatible == self.spec_copy_compatible(other),
    {
        self.without_srgb() == other.without_srgb()
    }
}

/// How finished frames are paced to the display.
#[derive(Clone, Copy, Debug, PartialEq, Eq, Structural)]
pub enum PresentMode {
    /// Locked to the display's refresh.
    AutoVsync,
    /// As fast as frames are produced.
    AutoNoVsync,
}

/// What a texture may be used for.
#[derive(Clone, Copy, Debug, PartialEq, Eq, Structural)]
pub struct TextureUsages {
    pub copy_src: bool,
    pub copy_dst: bool,
    pub texture_binding: bool,
    pub storage_binding: bool,
    pub render_attachment: bool,
}

impl TextureUsages {
    /// No use at all.
    pub open spec fn spec_empty() -> TextureUsages {
        TextureUsages {
            copy_src: false,
            copy_dst: false,
            texture_binding: false,
            storage_binding: false,
            render_attachment: false,
        }
    }

    /// Every use that either side allows.
    pub open spec fn spec_union(self, other: TextureUsages) -> TextureUsages {
        TextureUsages {
            copy_src: self.copy_src || other.copy_src,
            copy_dst: self.copy_dst || other.copy_dst,
            texture_binding: self.texture_binding || other.texture_binding,
            storage_binding: self.storage_binding || other.storage_binding,
            render_attachment: self.render_attachment || other.render_attachment,
        }
    }

    /// The uses of an offscreen target: written by the compute pass, then read
    /// by the copy to the surface.
    pub open spec fn spec_offscreen_target() -> TextureUsages {
        TextureUsages { copy_src: true, storage_binding: true, ..Self::spec_empty() }
    }

    /// The one use that the surface needs beyond its default: to receive a copy.
    pub open spec fn spec_copy_dst() -> TextureUsages {
        TextureUsages { copy_dst: true, ..Self::spec_empty() }
    }

    pub fn empty() -> (u: TextureUsages)
        ensures
            u == Self::spec_empty(),
    {
        TextureUsages {
            copy_src: false,
            copy_dst: false,
            texture_binding: false,
            storage_binding: false,
            render_attachment: false,
        }
    }

    pub fn union(self, other: TextureUsages) -> (u: TextureUsages)
        ensures
            u == self.spec_union(other),
    {
        TextureUsages {
            copy_src: self.copy_src || other.copy_src,
            copy_dst: self.copy_dst || other.copy_dst,
            texture_binding: self.texture_binding || other.texture_binding,
            storage_binding: self.storage_binding || other.storage_binding,
            render_attachment: self.render_attachment || other.render_attachment,
        }
    }

    pub fn offscreen_target() -> (u: TextureUsages)
        ensures
            u == Self::spec_offscreen_target(),
    {
        let mut u = Self::empty();
        u.copy_src = true;
        u.storage_binding = true;
        u
    }

    pub fn copy_dst() -> (u: TextureUsages)
        ensures
            u == Self::spec_copy_dst(),
    {
        let mut u = Self::empty();
        u.copy_dst = true;
        u
    }
}

/// What a buffer may be used for.
#[derive(Clone, Copy, Debug, PartialEq, Eq, Structural)]
pub struct BufferUsages {
    pub copy_src: bool,
    pub copy_dst: bool,
    pub uniform: bool,
    pub storage: bool,
}

impl BufferUsages {
    /// The uses of a position buffer: read by the shader as a uniform, written
    /// from the CPU every frame.
    pub open spec fn spec_uniform_upload() -> BufferUsages {
        BufferUsages { copy_src: false, copy_dst: true, uniform: true, storage: false }
    }

    pub fn uniform_upload() -> (u: BufferUsages)
        ensures
            u == Self::spec_uniform_upload(),
    {
        BufferUsages { copy_src: false, copy_dst: true, uniform: true, storage: false }
    }
}

/// Size of a texture or of a copy, in texels.
#[derive(Clone, Copy, Debug, PartialEq, Eq, Structural)]
pub struct Extent3d {
    pub width: u32,
    pub height: u32,
    pub depth_or_array_layers: u32,
}

#[derive(Clone, Copy, Debug, PartialEq, Eq, Structural)]
pub enum TextureDimension {
    D1,
    D2,
    D3,
}

#[derive(Clone, Copy, Debug, PartialEq, Eq, Structural)]
pub struct TextureDescriptor {
    pub size: Extent3d,
    pub mip_level_count: u32,
    pub sample_count: u32,
    pub dimension: TextureDimension,
    pub format: TextureFormat,
    pub usage: TextureUsages,
}

#[derive(Clone, Copy, Debug, PartialEq, Eq, Structural)]
pub struct BufferDescriptor {
    pub size: u64,
    pub usage: BufferUsages,
    pub mapped_at_creation: bool,
}

/// The shader stage that a binding is visible to, or that a module is
/// compiled for.
#[derive(Clone, Copy, Debug, PartialEq, Eq, Structural)]
pub enum ShaderStage {
    Vertex,
    Fragment,
    Compute,
}

#[derive(Clone, Copy, Debug, PartialEq, Eq, Structural)]
pub enum StorageTextureAccess {
    WriteOnly,
    ReadOnly,
    ReadWrite,
}

#[derive(Clone, Copy, Debug, PartialEq, Eq, Structural)]
pub enum TextureViewDimension {
    D1,
    D2,
    D2Array,
    Cube,
    CubeArray,
    D3,
}

/// The kind of resource that a binding slot of the shader takes.
#[derive(Clone, Copy, Debug, PartialEq, Eq, Structural)]
pub enum BindingType {
    UniformBuffer { has_dynamic_offset: bool },
    StorageTexture {
        access: StorageTextureAccess,
        format: TextureFormat,
        view_dimension: TextureViewDimension,
    },
}

#[derive(Clone, Copy, Debug, PartialEq, Eq, Structural)]
pub struct BindGroupLayoutEntry {
    pub binding: u32,
    pub visibility: ShaderStage,
    pub ty: BindingType,
}

/// A resource of one frame slot, as a bind group refers to it.
#[derive(Clone, Copy, Debug, PartialEq, Eq, Structural)]
pub enum BindingResource {
    /// The whole position buffer of the slot.
    Buffer { slot: usize },
    /// A default view of the slot's offscreen target.
    TextureView { slot: usize },
}

#[derive(Clone, Copy, Debug, PartialEq, Eq, Structural)]
pub struct BindGroupEntry {
    pub binding: u32,
    pub resource: BindingResource,
}

/// A bind group over the one bind group layout of the pipeline.
#[derive(Clone, Copy, Debug, PartialEq, Eq, Structural)]
pub struct BindGroupDescriptor {
    pub positions: BindGroupEntry,
    pub target: BindGroupEntry,
}

/// The one pipeline of the program: a single stage of the built-in shader,
/// entered at its default entry point, over this many copies of the bind group
/// layout and without push constants.
#[derive(Clone, Copy, Debug, PartialEq, Eq, Structural)]
pub struct ComputePipelineDescriptor {
    pub stage: ShaderStage,
    pub bind_group_layouts: u32,
}

/// Binding slot of the position buffer.
pub const POSITIONS_BINDING: u32 = 0;

/// Binding slot of the offscreen target.
pub const TARGET_BINDING: u32 = 1;

/// Format of every offscreen target: the one that the shader writes.
pub open spec fn spec_target_format() -> TextureFormat {
    TextureFormat::Rgba8Unorm
}

pub fn target_format() -> (f: TextureFormat)
    ensures
        f == spec_target_format(),
{
    TextureFormat::Rgba8Unorm
}

} // verus!
