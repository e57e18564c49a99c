//! The D3D12 graphics backend.

use vstd::prelude::*;

use crate::format::{
    d3d12_to_wgpu, dxgi_format, is_mapped_code, stands_for, wgpu_format, wgpu_to_d3d12,
    TextureFormat,
};

verus! {

/// The D3D12 graphics backend.
///
/// Its functions say what the backend hands to OpenXR, D3D12 and `wgpu` at each point, and what
/// it makes of the answers.
pub struct D3D12;

/// An item that belongs to one of the graphics backends.
pub enum GraphicsWrap<T> {
    D3D12(T),
}

impl D3D12 {
    /// Marks `item` as one of this backend.
    pub fn wrap<T>(item: T) -> (wrapped: GraphicsWrap<T>)
        ensures
            wrapped == GraphicsWrap::D3D12(item),
    {
        GraphicsWrap::D3D12(item)
    }

    /// The swapchain format of a texture of format `format`.
    pub fn from_wgpu_format(format: TextureFormat) -> (result: Option<u32>)
        ensures
            result == dxgi_format(format),
    {
        wgpu_to_d3d12(format)
    }

    /// The format of the textures of a swapchain of format `format`.
    pub fn into_wgpu_format(format: u32) -> (result: Option<TextureFormat>)
        ensures
            result == wgpu_format(format),
            result is Some <==> is_mapped_code(format),
            result matches Some(found) ==> stands_for(found, format),
    {
        d3d12_to_wgpu(format)
    }
}

} // verus!
