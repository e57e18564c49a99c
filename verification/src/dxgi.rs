//! The `DXGI_FORMAT` codes that a D3D12 swapchain can be asked for.
//!
//! The numbers are those of `dxgiformat.h`.

use vstd::prelude::*;

verus! {

pub const DXGI_FORMAT_R32G32B32A32_FLOAT: u32 = 2;

pub const DXGI_FORMAT_R32G32B32A32_UINT: u32 = 3;

pub const DXGI_FORMAT_R32G32B32A32_SINT: u32 = 4;

pub const DXGI_FORMAT_R16G16B16A16_FLOAT: u32 = 10;

pub const DXGI_FORMAT_R16G16B16A16_UNORM: u32 = 11;

pub const DXGI_FORMAT_R16G16B16A16_UINT: u32 = 12;

pub const DXGI_FORMAT_R16G16B16A16_SNORM: u32 = 13;

pub const DXGI_FORMAT_R16G16B16A16_SINT: u32 = 14;

pub const DXGI_FORMAT_R32G32_FLOAT: u32 = 16;

pub const DXGI_FORMAT_R32G32_UINT: u32 = 17;

pub const DXGI_FORMAT_R32G32_SINT: u32 = 18;

pub const DXGI_FORMAT_D32_FLOAT_S8X24_UINT: u32 = 20;

pub const DXGI_FORMAT_R10G10B10A2_UNORM: u32 = 24;

pub const DXGI_FORMAT_R10G10B10A2_UINT: u32 = 25;

pub const DXGI_FORMAT_R11G11B10_FLOAT: u32 = 26;

pub const DXGI_FORMAT_R8G8B8A8_UNORM: u32 = 28;

pub const DXGI_FORMAT_R8G8B8A8_UNORM_SRGB: u32 = 29;

pub const DXGI_FORMAT_R8G8B8A8_UINT: u32 = 30;

pub const DXGI_FORMAT_R8G8B8A8_SNORM: u32 = 31;

pub const DXGI_FORMAT_R8G8B8A8_SINT: u32 = 32;

pub const DXGI_FORMAT_R16G16_FLOAT: u32 = 34;

pub const DXGI_FORMAT_R16G16_UNORM: u32 = 35;

pub const DXGI_FORMAT_R16G16_UINT: u32 = 36;

pub const DXGI_FORMAT_R16G16_SNORM: u32 = 37;

pub const DXGI_FORMAT_R16G16_SINT: u32 = 38;

pub const DXGI_FORMAT_D32_FLOAT: u32 = 40;

pub const DXGI_FORMAT_R32_FLOAT: u32 = 41;

pub const DXGI_FORMAT_R32_UINT: u32 = 42;

pub const DXGI_FORMAT_R32_SINT: u32 = 43;

pub const DXGI_FORMAT_D24_UNORM_S8_UINT: u32 = 45;

pub const DXGI_FORMAT_R8G8_UNORM: u32 = 49;

pub const DXGI_FORMAT_R8G8_UINT: u32 = 50;

pub const DXGI_FORMAT_R8G8_SNORM: u32 = 51;

pub const DXGI_FORMAT_R8G8_SINT: u32 = 52;

pub const DXGI_FORMAT_R16_FLOAT: u32 = 54;

pub const DXGI_FORMAT_D16_UNORM: u32 = 55;

pub const DXGI_FORMAT_R16_UNORM: u32 = 56;

pub const DXGI_FORMAT_R16_UINT: u32 = 57;

pub const DXGI_FORMAT_R16_SNORM: u32 = 58;

pub const DXGI_FORMAT_R16_SINT: u32 = 59;

pub const DXGI_FORMAT_R8_UNORM: u32 = 61;

pub const DXGI_FORMAT_R8_UINT: u32 = 62;

pub const DXGI_FORMAT_R8_SNORM: u32 = 63;

pub const DXGI_FORMAT_R8_SINT: u32 = 64;

pub const DXGI_FORMAT_R9G9B9E5_SHAREDEXP: u32 = 67;

pub const DXGI_FORMAT_BC1_UNORM: u32 = 71;

pub const DXGI_FORMAT_BC1_UNORM_SRGB: u32 = 72;

pub const DXGI_FORMAT_BC2_UNORM: u32 = 74;

pub const DXGI_FORMAT_BC2_UNORM_SRGB: u32 = 75;

pub const DXGI_FORMAT_BC3_UNORM: u32 = 77;

pub const DXGI_FORMAT_BC3_UNORM_SRGB: u32 = 78;

pub const DXGI_FORMAT_BC4_UNORM: u32 = 80;

pub const DXGI_FORMAT_BC4_SNORM: u32 = 81;

pub const DXGI_FORMAT_BC5_UNORM: u32 = 83;

pub const DXGI_FORMAT_BC5_SNORM: u32 = 84;

pub const DXGI_FORMAT_B8G8R8A8_UNORM: u32 = 87;

pub const DXGI_FORMAT_B8G8R8A8_UNORM_SRGB: u32 = 91;

pub const DXGI_FORMAT_BC6H_UF16: u32 = 95;

pub const DXGI_FORMAT_BC6H_SF16: u32 = 96;

pub const DXGI_FORMAT_BC7_UNORM: u32 = 98;

pub const DXGI_FORMAT_BC7_UNORM_SRGB: u32 = 99;

pub const DXGI_FORMAT_NV12: u32 = 103;

} // verus!
