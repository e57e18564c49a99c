//! The textures that stand for the images of a swapchain.

use vstd::prelude::*;

use crate::backend::D3D12;
use crate::error::OxrError;
use crate::flags::{swapchain_usage_names, swapchain_usages, usage_names};
use crate::format::TextureFormat;

verus! {

/// Width and height of a swapchain, in pixels.
#[derive(Debug, Clone, Copy, PartialEq, Eq, Structural)]
pub struct UVec2 {
    pub x: u32,
    pub y: u32,
}

/// The extent of a texture.
#[derive(Debug, Clone, Copy, PartialEq, Eq, Structural)]
pub struct Extent3d {
    pub width: u32,
    pub height: u32,
    pub depth_or_array_layers: u32,
}

/// The number of dimensions of a texture.
#[derive(Debug, Clone, Copy, PartialEq, Eq, Structural)]
pub enum TextureDimension {
    D1,
    D2,
    D3,
}

/// How a D3D12 resource is described to `wgpu_hal` when it is taken over as a texture.
#[derive(Debug, Clone, Copy, PartialEq, Eq, Structural)]
pub struct RawTexture {
    pub format: TextureFormat,
    pub dimension: TextureDimension,
    pub size: Extent3d,
    pub mip_level_count: u32,
    pub sample_count: u32,
}

/// How that texture is described to `wgpu`.
pub struct TextureDescriptor {
    pub label: &'static str,
    pub size: Extent3d,
    pub mip_level_count: u32,
    pub sample_count: u32,
    pub dimension: TextureDimension,
    pub format: TextureFormat,
    pub usage: wgpu::TextureUsages,
    /// The further formats in which the texture may be viewed.
    pub view_formats: Vec<TextureFormat>,
}

/// Both descriptions of a swapchain image.
pub struct SwapchainTexture {
    pub raw: RawTexture,
    pub descriptor: TextureDescriptor,
}

/// The extent of a swapchain image: one layer for each eye.
pub open spec fn swapchain_extent(resolution: UVec2) -> Extent3d {
    Extent3d { width: resolution.x, height: resolution.y, depth_or_array_layers: 2 }
}

impl SwapchainTexture {
    /// Whether these are the descriptions of a swapchain image of the given format and size.
    pub open spec fn describes(self, format: TextureFormat, resolution: UVec2) -> bool {
        &&& self.raw == RawTexture {
            format,
            dimension: TextureDimension::D2,
            size: swapchain_extent(resolution),
            mip_level_count: 1,
            sample_count: 1,
        }
        &&& self.descriptor.label@ == "VR Swapchain"@
        &&& self.descriptor.size == swapchain_extent(resolution)
        &&& self.descriptor.mip_level_count == 1
        &&& self.descriptor.sample_count == 1
        &&& self.descriptor.dimension == TextureDimension::D2
        &&& self.descriptor.format == format
        &&& usage_names(self.descriptor.usage) == swapchain_usage_names()
        &&& self.descriptor.view_formats@ == Seq::<TextureFormat>::empty()
    }
}

impl D3D12 {
    /// How a swapchain image becomes a texture of a device.
    ///
    /// `is_d3d12` says whether the device runs on D3D12: on another it cannot become one.
    pub fn to_wgpu_img<E>(is_d3d12: bool, format: TextureFormat, resolution: UVec2) -> (result:
        Result<SwapchainTexture, OxrError<E>>)
        ensures
            is_d3d12 <==> result is Ok,
            result matches Ok(texture) ==> texture.describes(format, resolution),
            result matches Ok(texture) ==> {
                &&& texture.raw.format == format
                &&& texture.raw.dimension is D2
                &&& texture.raw.size.width == resolution.x
                &&& texture.raw.size.height == resolution.y
                &&& texture.raw.size.depth_or_array_layers == 2
                &&& texture.raw.mip_level_count == 1
                &&& texture.raw.sample_count == 1
            },
            result matches Ok(texture) ==> {
                &&& texture.descriptor.label@ == "VR Swapchain"@
                &&& texture.descriptor.format == format
                &&& texture.descriptor.dimension is D2
                &&& texture.descriptor.size.width == resolution.x
                &&& texture.descriptor.size.height == resolution.y
                &&& texture.descriptor.size.depth_or_array_layers == 2
                &&& texture.descriptor.mip_level_count == 1
                &&& texture.descriptor.sample_count == 1
                &&& usage_names(texture.descriptor.usage) == set!["RENDER_ATTACHMENT"@, "COPY_DST"@]
                &&& texture.descriptor.view_formats@.len() == 0
            },
            result matches Err(error) ==> {
                &&& error is GraphicsBackendMismatch
                &&& error->item@ == "Wgpu Device"@
                &&& error->backend@ == "unknown"@
                &&& error->expected_backend@ == "d3d12"@
            },
    {
        if !is_d3d12 {
            return Err(
                OxrError::GraphicsBackendMismatch {
                    item: "Wgpu Device",
                    backend: "unknown",
                    expected_backend: "d3d12",
                },
            );
        }
        let size = Extent3d {
            width: resolution.x,
            height: resolution.y,
            depth_or_array_layers: 2,
        };
        Ok(
            SwapchainTexture {
                raw: RawTexture {
                    format,
                    dimension: TextureDimension::D2,
                    size,
                    mip_level_count: 1,
                    sample_count: 1,
                },
                descriptor: TextureDescriptor {
                    label: "VR Swapchain",
                    size,
                    mip_level_count: 1,
                    sample_count: 1,
                    dimension: TextureDimension::D2,
                    format,
                    usage: swapchain_usages(),
                    view_formats: Vec::new(),
                },
            },
        )
    }
}

/// Both descriptions of a swapchain image have the format that was asked for.
pub proof fn descriptions_keep_the_format(
    texture: SwapchainTexture,
    format: TextureFormat,
    resolution: UVec2,
)
    requires
        texture.describes(format, resolution),
    ensures
        texture.raw.format == format,
        texture.descriptor.format == format,
{
}

/// Both descriptions of a swapchain image have its full resolution, whatever that is, and a layer
/// for each eye.
pub proof fn descriptions_keep_the_resolution(
    texture: SwapchainTexture,
    format: TextureFormat,
    resolution: UVec2,
)
    requires
        texture.describes(format, resolution),
    ensures
        texture.raw.size.width == resolution.x,
        texture.raw.size.height == resolution.y,
        texture.raw.size.depth_or_array_layers == 2,
        texture.descriptor.size.width == resolution.x,
        texture.descriptor.size.height == resolution.y,
        texture.descriptor.size.depth_or_array_layers == 2,
{
}

/// A swapchain image is a flat texture of one level and one sample, for rendering to and copying
/// to, viewed in its own format alone.
pub proof fn descriptions_are_of_a_plain_render_target(
    texture: SwapchainTexture,
    format: TextureFormat,
    resolution: UVec2,
)
    requires
        texture.describes(format, resolution),
    ensures
        texture.raw.dimension is D2,
        texture.raw.mip_level_count == 1,
        texture.raw.sample_count == 1,
        texture.descriptor.dimension is D2,
        texture.descriptor.mip_level_count == 1,
        texture.descriptor.sample_count == 1,
        texture.descriptor.label@ == "VR Swapchain"@,
        forall|usage: Seq<char>| #[trigger]
            usage_names(texture.descriptor.usage).contains(usage) <==> usage
                == "RENDER_ATTACHMENT"@ || usage == "COPY_DST"@,
        texture.descriptor.view_formats@.len() == 0,
{
}

/// Images that differ in format or in resolution are described differently.
pub proof fn descriptions_tell_images_apart(
    one: SwapchainTexture,
    other: SwapchainTexture,
    format: TextureFormat,
    resolution: UVec2,
    other_format: TextureFormat,
    other_resolution: UVec2,
)
    requires
        one.describes(format, resolution),
        other.describes(other_format, other_resolution),
        one.raw == other.raw,
    ensures
        format == other_format,
        resolution == other_resolution,
{
}

/// The two descriptions of a swapchain image agree in all that they both say.
pub proof fn descriptions_agree(
    texture: SwapchainTexture,
    format: TextureFormat,
    resolution: UVec2,
)
    requires
        texture.describes(format, resolution),
    ensures
        texture.raw.format == texture.descriptor.format,
        texture.raw.dimension == texture.descriptor.dimension,
        texture.raw.size == texture.descriptor.size,
        texture.raw.mip_level_count == texture.descriptor.mip_level_count,
        texture.raw.sample_count == texture.descriptor.sample_count,
{
}

} // verus!
