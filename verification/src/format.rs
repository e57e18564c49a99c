//! Texture formats, and the correspondence between those of `wgpu` and those of DXGI.

use vstd::prelude::*;

use crate::dxgi::{
    DXGI_FORMAT_R32G32B32A32_FLOAT, DXGI_FORMAT_R32G32B32A32_UINT, DXGI_FORMAT_R32G32B32A32_SINT,
    DXGI_FORMAT_R16G16B16A16_FLOAT, DXGI_FORMAT_R16G16B16A16_UNORM, DXGI_FORMAT_R16G16B16A16_UINT,
    DXGI_FORMAT_R16G16B16A16_SNORM, DXGI_FORMAT_R16G16B16A16_SINT, DXGI_FORMAT_R32G32_FLOAT,
    DXGI_FORMAT_R32G32_UINT, DXGI_FORMAT_R32G32_SINT, DXGI_FORMAT_D32_FLOAT_S8X24_UINT,
    DXGI_FORMAT_R10G10B10A2_UNORM, DXGI_FORMAT_R10G10B10A2_UINT, DXGI_FORMAT_R11G11B10_FLOAT,
    DXGI_FORMAT_R8G8B8A8_UNORM, DXGI_FORMAT_R8G8B8A8_UNORM_SRGB, DXGI_FORMAT_R8G8B8A8_UINT,
    DXGI_FORMAT_R8G8B8A8_SNORM, DXGI_FORMAT_R8G8B8A8_SINT, DXGI_FORMAT_R16G16_FLOAT,
    DXGI_FORMAT_R16G16_UNORM, DXGI_FORMAT_R16G16_UINT, DXGI_FORMAT_R16G16_SNORM,
    DXGI_FORMAT_R16G16_SINT, DXGI_FORMAT_D32_FLOAT, DXGI_FORMAT_R32_FLOAT, DXGI_FORMAT_R32_UINT,
    DXGI_FORMAT_R32_SINT, DXGI_FORMAT_D24_UNORM_S8_UINT, DXGI_FORMAT_R8G8_UNORM,
    DXGI_FORMAT_R8G8_UINT, DXGI_FORMAT_R8G8_SNORM, DXGI_FORMAT_R8G8_SINT, DXGI_FORMAT_R16_FLOAT,
    DXGI_FORMAT_D16_UNORM, DXGI_FORMAT_R16_UNORM, DXGI_FORMAT_R16_UINT, DXGI_FORMAT_R16_SNORM,
    DXGI_FORMAT_R16_SINT, DXGI_FORMAT_R8_UNORM, DXGI_FORMAT_R8_UINT, DXGI_FORMAT_R8_SNORM,
    DXGI_FORMAT_R8_SINT, DXGI_FORMAT_R9G9B9E5_SHAREDEXP, DXGI_FORMAT_BC1_UNORM,
    DXGI_FORMAT_BC1_UNORM_SRGB, DXGI_FORMAT_BC2_UNORM, DXGI_FORMAT_BC2_UNORM_SRGB,
    DXGI_FORMAT_BC3_UNORM, DXGI_FORMAT_BC3_UNORM_SRGB, DXGI_FORMAT_BC4_UNORM,
    DXGI_FORMAT_BC4_SNORM, DXGI_FORMAT_BC5_UNORM, DXGI_FORMAT_BC5_SNORM,
    DXGI_FORMAT_B8G8R8A8_UNORM, DXGI_FORMAT_B8G8R8A8_UNORM_SRGB, DXGI_FORMAT_BC6H_UF16,
    DXGI_FORMAT_BC6H_SF16, DXGI_FORMAT_BC7_UNORM, DXGI_FORMAT_BC7_UNORM_SRGB, DXGI_FORMAT_NV12,
};

verus! {

/// Block dimensions of an ASTC texture, as `wgpu::AstcBlock` has them.
#[derive(Debug, Clone, Copy, PartialEq, Eq, Structural)]
pub enum AstcBlock {
    B4x4,
    B5x4,
    B5x5,
    B6x5,
    B6x6,
    B8x5,
    B8x6,
    B8x8,
    B10x5,
    B10x6,
    B10x8,
    B10x10,
    B12x10,
    B12x12,
}

/// Channel type of an ASTC texture, as `wgpu::AstcChannel` has it.
#[derive(Debug, Clone, Copy, PartialEq, Eq, Structural)]
pub enum AstcChannel {
    Unorm,
    UnormSrgb,
    Hdr,
}

/// A texture format, variant for variant the one of `wgpu`.
#[derive(Debug, Clone, Copy, PartialEq, Eq, Structural)]
pub enum TextureFormat {
    R8Unorm,
    R8Snorm,
    R8Uint,
    R8Sint,
    R16Uint,
    R16Sint,
    R16Unorm,
    R16Snorm,
    R16Float,
    Rg8Unorm,
    Rg8Snorm,
    Rg8Uint,
    Rg8Sint,
    R32Uint,
    R32Sint,
    R32Float,
    Rg16Uint,
    Rg16Sint,
    Rg16Unorm,
    Rg16Snorm,
    Rg16Float,
    Rgba8Unorm,
    Rgba8UnormSrgb,
    Rgba8Snorm,
    Rgba8Uint,
    Rgba8Sint,
    Bgra8Unorm,
    Bgra8UnormSrgb,
    Rgb9e5Ufloat,
    Rgb10a2Uint,
    Rgb10a2Unorm,
    Rg11b10Ufloat,
    R64Uint,
    Rg32Uint,
    Rg32Sint,
    Rg32Float,
    Rgba16Uint,
    Rgba16Sint,
    Rgba16Unorm,
    Rgba16Snorm,
    Rgba16Float,
    Rgba32Uint,
    Rgba32Sint,
    Rgba32Float,
    Stencil8,
    Depth16Unorm,
    Depth24Plus,
    Depth24PlusStencil8,
    Depth32Float,
    Depth32FloatStencil8,
    NV12,
    P010,
    Bc1RgbaUnorm,
    Bc1RgbaUnormSrgb,
    Bc2RgbaUnorm,
    Bc2RgbaUnormSrgb,
    Bc3RgbaUnorm,
    Bc3RgbaUnormSrgb,
    Bc4RUnorm,
    Bc4RSnorm,
    Bc5RgUnorm,
    Bc5RgSnorm,
    Bc6hRgbUfloat,
    Bc6hRgbFloat,
    Bc7RgbaUnorm,
    Bc7RgbaUnormSrgb,
    Etc2Rgb8Unorm,
    Etc2Rgb8UnormSrgb,
    Etc2Rgb8A1Unorm,
    Etc2Rgb8A1UnormSrgb,
    Etc2Rgba8Unorm,
    Etc2Rgba8UnormSrgb,
    EacR11Unorm,
    EacR11Snorm,
    EacRg11Unorm,
    EacRg11Snorm,
    Astc { block: AstcBlock, channel: AstcChannel },
}

/// The DXGI format in which D3D12 stores a texture of format `format`.
///
/// This is the one table of the correspondence: both directions are stated over it.
pub open spec fn dxgi_format(format: TextureFormat) -> Option<u32> {
    match format {
        TextureFormat::R8Unorm => Some(DXGI_FORMAT_R8_UNORM),
        TextureFormat::R8Snorm => Some(DXGI_FORMAT_R8_SNORM),
        TextureFormat::R8Uint => Some(DXGI_FORMAT_R8_UINT),
        TextureFormat::R8Sint => Some(DXGI_FORMAT_R8_SINT),
        TextureFormat::R16Uint => Some(DXGI_FORMAT_R16_UINT),
        TextureFormat::R16Sint => Some(DXGI_FORMAT_R16_SINT),
        TextureFormat::R16Unorm => Some(DXGI_FORMAT_R16_UNORM),
        TextureFormat::R16Snorm => Some(DXGI_FORMAT_R16_SNORM),
        TextureFormat::R16Float => Some(DXGI_FORMAT_R16_FLOAT),
        TextureFormat::Rg8Unorm => Some(DXGI_FORMAT_R8G8_UNORM),
        TextureFormat::Rg8Snorm => Some(DXGI_FORMAT_R8G8_SNORM),
        TextureFormat::Rg8Uint => Some(DXGI_FORMAT_R8G8_UINT),
        TextureFormat::Rg8Sint => Some(DXGI_FORMAT_R8G8_SINT),
        TextureFormat::Rg16Unorm => Some(DXGI_FORMAT_R16G16_UNORM),
        TextureFormat::Rg16Snorm => Some(DXGI_FORMAT_R16G16_SNORM),
        TextureFormat::R32Uint => Some(DXGI_FORMAT_R32_UINT),
        TextureFormat::R32Sint => Some(DXGI_FORMAT_R32_SINT),
        TextureFormat::R32Float => Some(DXGI_FORMAT_R32_FLOAT),
        TextureFormat::Rg16Uint => Some(DXGI_FORMAT_R16G16_UINT),
        TextureFormat::Rg16Sint => Some(DXGI_FORMAT_R16G16_SINT),
        TextureFormat::Rg16Float => Some(DXGI_FORMAT_R16G16_FLOAT),
        TextureFormat::Rgba8Unorm => Some(DXGI_FORMAT_R8G8B8A8_UNORM),
        TextureFormat::Rgba8UnormSrgb => Some(DXGI_FORMAT_R8G8B8A8_UNORM_SRGB),
        TextureFormat::Bgra8UnormSrgb => Some(DXGI_FORMAT_B8G8R8A8_UNORM_SRGB),
        TextureFormat::Rgba8Snorm => Some(DXGI_FORMAT_R8G8B8A8_SNORM),
        TextureFormat::Bgra8Unorm => Some(DXGI_FORMAT_B8G8R8A8_UNORM),
        TextureFormat::Rgba8Uint => Some(DXGI_FORMAT_R8G8B8A8_UINT),
        TextureFormat::Rgba8Sint => Some(DXGI_FORMAT_R8G8B8A8_SINT),
        TextureFormat::Rgb9e5Ufloat => Some(DXGI_FORMAT_R9G9B9E5_SHAREDEXP),
        TextureFormat::Rgb10a2Uint => Some(DXGI_FORMAT_R10G10B10A2_UINT),
        TextureFormat::Rgb10a2Unorm => Some(DXGI_FORMAT_R10G10B10A2_UNORM),
        TextureFormat::Rg11b10Ufloat => Some(DXGI_FORMAT_R11G11B10_FLOAT),
        TextureFormat::Rg32Uint => Some(DXGI_FORMAT_R32G32_UINT),
        TextureFormat::Rg32Sint => Some(DXGI_FORMAT_R32G32_SINT),
        TextureFormat::Rg32Float => Some(DXGI_FORMAT_R32G32_FLOAT),
        TextureFormat::Rgba16Uint => Some(DXGI_FORMAT_R16G16B16A16_UINT),
        TextureFormat::Rgba16Sint => Some(DXGI_FORMAT_R16G16B16A16_SINT),
        TextureFormat::Rgba16Unorm => Some(DXGI_FORMAT_R16G16B16A16_UNORM),
        TextureFormat::Rgba16Snorm => Some(DXGI_FORMAT_R16G16B16A16_SNORM),
        TextureFormat::Rgba16Float => Some(DXGI_FORMAT_R16G16B16A16_FLOAT),
        TextureFormat::Rgba32Uint => Some(DXGI_FORMAT_R32G32B32A32_UINT),
        TextureFormat::Rgba32Sint => Some(DXGI_FORMAT_R32G32B32A32_SINT),
        TextureFormat::Rgba32Float => Some(DXGI_FORMAT_R32G32B32A32_FLOAT),
        TextureFormat::Stencil8 => Some(DXGI_FORMAT_D24_UNORM_S8_UINT),
        TextureFormat::Depth16Unorm => Some(DXGI_FORMAT_D16_UNORM),
        TextureFormat::Depth24Plus => Some(DXGI_FORMAT_D24_UNORM_S8_UINT),
        TextureFormat::Depth24PlusStencil8 => Some(DXGI_FORMAT_D24_UNORM_S8_UINT),
        TextureFormat::Depth32Float => Some(DXGI_FORMAT_D32_FLOAT),
        TextureFormat::Depth32FloatStencil8 => Some(DXGI_FORMAT_D32_FLOAT_S8X24_UINT),
        TextureFormat::NV12 => Some(DXGI_FORMAT_NV12),
        TextureFormat::Bc1RgbaUnorm => Some(DXGI_FORMAT_BC1_UNORM),
        TextureFormat::Bc1RgbaUnormSrgb => Some(DXGI_FORMAT_BC1_UNORM_SRGB),
        TextureFormat::Bc2RgbaUnorm => Some(DXGI_FORMAT_BC2_UNORM),
        TextureFormat::Bc2RgbaUnormSrgb => Some(DXGI_FORMAT_BC2_UNORM_SRGB),
        TextureFormat::Bc3RgbaUnorm => Some(DXGI_FORMAT_BC3_UNORM),
        TextureFormat::Bc3RgbaUnormSrgb => Some(DXGI_FORMAT_BC3_UNORM_SRGB),
        TextureFormat::Bc4RUnorm => Some(DXGI_FORMAT_BC4_UNORM),
        TextureFormat::Bc4RSnorm => Some(DXGI_FORMAT_BC4_SNORM),
        TextureFormat::Bc5RgUnorm => Some(DXGI_FORMAT_BC5_UNORM),
        TextureFormat::Bc5RgSnorm => Some(DXGI_FORMAT_BC5_SNORM),
        TextureFormat::Bc6hRgbUfloat => Some(DXGI_FORMAT_BC6H_UF16),
        TextureFormat::Bc6hRgbFloat => Some(DXGI_FORMAT_BC6H_SF16),
        TextureFormat::Bc7RgbaUnorm => Some(DXGI_FORMAT_BC7_UNORM),
        TextureFormat::Bc7RgbaUnormSrgb => Some(DXGI_FORMAT_BC7_UNORM_SRGB),
        _ => None,
    }
}

/// Whether `format` is the one that stands for its DXGI code.
///
/// Every format is, but for the two that share the code of `Stencil8`.
pub open spec fn is_canonical(format: TextureFormat) -> bool {
    !(format is Depth24Plus) && !(format is Depth24PlusStencil8)
}

/// The DXGI codes that some format is stored as.
pub open spec fn is_mapped_code(code: u32) -> bool {
    ||| 2 <= code <= 4
    ||| 10 <= code <= 14
    ||| 16 <= code <= 18
    ||| code == 20
    ||| 24 <= code <= 26
    ||| 28 <= code <= 32
    ||| 34 <= code <= 38
    ||| 40 <= code <= 43
    ||| code == 45
    ||| 49 <= code <= 52
    ||| 54 <= code <= 59
    ||| 61 <= code <= 64
    ||| code == 67
    ||| 71 <= code <= 72
    ||| 74 <= code <= 75
    ||| 77 <= code <= 78
    ||| 80 <= code <= 81
    ||| 83 <= code <= 84
    ||| code == 87
    ||| code == 91
    ||| 95 <= code <= 96
    ||| 98 <= code <= 99
    ||| code == 103
}

/// Whether `format` is the format that stands for the DXGI code `code`.
pub open spec fn stands_for(format: TextureFormat, code: u32) -> bool {
    dxgi_format(format) == Some(code) && is_canonical(format)
}

/// The format that stands for the DXGI code `code`, if there is one.
pub open spec fn wgpu_format(code: u32) -> Option<TextureFormat> {
    if exists|format: TextureFormat| stands_for(format, code) {
        Some(choose|format: TextureFormat| stands_for(format, code))
    } else {
        None
    }
}

/// The format that a swapchain of DXGI format `format` holds, if `wgpu` has one.
///
/// This inverts [`wgpu_to_d3d12`], with `Stencil8` for the one code that three formats share.
pub fn d3d12_to_wgpu(format: u32) -> (result: Option<TextureFormat>)
    ensures
        result == wgpu_format(format),
        result is Some <==> is_mapped_code(format),
        result matches Some(found) ==> stands_for(found, format),
        result matches Some(found) ==> dxgi_format(found) == Some(format) && !(found is Depth24Plus)
            && !(found is Depth24PlusStencil8) && !(found is Astc),
        format < 2 || format > 103 ==> result is None,
{
    let found = match format {
        DXGI_FORMAT_R8_UNORM => TextureFormat::R8Unorm,
        DXGI_FORMAT_R8_SNORM => TextureFormat::R8Snorm,
        DXGI_FORMAT_R8_UINT => TextureFormat::R8Uint,
        DXGI_FORMAT_R8_SINT => TextureFormat::R8Sint,
        DXGI_FORMAT_R16_UINT => TextureFormat::R16Uint,
        DXGI_FORMAT_R16_SINT => TextureFormat::R16Sint,
        DXGI_FORMAT_R16_UNORM => TextureFormat::R16Unorm,
        DXGI_FORMAT_R16_SNORM => TextureFormat::R16Snorm,
        DXGI_FORMAT_R16_FLOAT => TextureFormat::R16Float,
        DXGI_FORMAT_R8G8_UNORM => TextureFormat::Rg8Unorm,
        DXGI_FORMAT_R8G8_SNORM => TextureFormat::Rg8Snorm,
        DXGI_FORMAT_R8G8_UINT => TextureFormat::Rg8Uint,
        DXGI_FORMAT_R8G8_SINT => TextureFormat::Rg8Sint,
        DXGI_FORMAT_R16G16_UNORM => TextureFormat::Rg16Unorm,
        DXGI_FORMAT_R16G16_SNORM => TextureFormat::Rg16Snorm,
        DXGI_FORMAT_R32_UINT => TextureFormat::R32Uint,
        DXGI_FORMAT_R32_SINT => TextureFormat::R32Sint,
        DXGI_FORMAT_R32_FLOAT => TextureFormat::R32Float,
        DXGI_FORMAT_R16G16_UINT => TextureFormat::Rg16Uint,
        DXGI_FORMAT_R16G16_SINT => TextureFormat::Rg16Sint,
        DXGI_FORMAT_R16G16_FLOAT => TextureFormat::Rg16Float,
        DXGI_FORMAT_R8G8B8A8_UNORM => TextureFormat::Rgba8Unorm,
        DXGI_FORMAT_R8G8B8A8_UNORM_SRGB => TextureFormat::Rgba8UnormSrgb,
        DXGI_FORMAT_B8G8R8A8_UNORM_SRGB => TextureFormat::Bgra8UnormSrgb,
        DXGI_FORMAT_R8G8B8A8_SNORM => TextureFormat::Rgba8Snorm,
        DXGI_FORMAT_B8G8R8A8_UNORM => TextureFormat::Bgra8Unorm,
        DXGI_FORMAT_R8G8B8A8_UINT => TextureFormat::Rgba8Uint,
        DXGI_FORMAT_R8G8B8A8_SINT => TextureFormat::Rgba8Sint,
        DXGI_FORMAT_R9G9B9E5_SHAREDEXP => TextureFormat::Rgb9e5Ufloat,
        DXGI_FORMAT_R10G10B10A2_UINT => TextureFormat::Rgb10a2Uint,
        DXGI_FORMAT_R10G10B10A2_UNORM => TextureFormat::Rgb10a2Unorm,
        DXGI_FORMAT_R11G11B10_FLOAT => TextureFormat::Rg11b10Ufloat,
        DXGI_FORMAT_R32G32_UINT => TextureFormat::Rg32Uint,
        DXGI_FORMAT_R32G32_SINT => TextureFormat::Rg32Sint,
        DXGI_FORMAT_R32G32_FLOAT => TextureFormat::Rg32Float,
        DXGI_FORMAT_R16G16B16A16_UINT => TextureFormat::Rgba16Uint,
        DXGI_FORMAT_R16G16B16A16_SINT => TextureFormat::Rgba16Sint,
        DXGI_FORMAT_R16G16B16A16_UNORM => TextureFormat::Rgba16Unorm,
        DXGI_FORMAT_R16G16B16A16_SNORM => TextureFormat::Rgba16Snorm,
        DXGI_FORMAT_R16G16B16A16_FLOAT => TextureFormat::Rgba16Float,
        DXGI_FORMAT_R32G32B32A32_UINT => TextureFormat::Rgba32Uint,
        DXGI_FORMAT_R32G32B32A32_SINT => TextureFormat::Rgba32Sint,
        DXGI_FORMAT_R32G32B32A32_FLOAT => TextureFormat::Rgba32Float,
        DXGI_FORMAT_D24_UNORM_S8_UINT => TextureFormat::Stencil8,
        DXGI_FORMAT_D16_UNORM => TextureFormat::Depth16Unorm,
        DXGI_FORMAT_D32_FLOAT => TextureFormat::Depth32Float,
        DXGI_FORMAT_D32_FLOAT_S8X24_UINT => TextureFormat::Depth32FloatStencil8,
        DXGI_FORMAT_NV12 => TextureFormat::NV12,
        DXGI_FORMAT_BC1_UNORM => TextureFormat::Bc1RgbaUnorm,
        DXGI_FORMAT_BC1_UNORM_SRGB => TextureFormat::Bc1RgbaUnormSrgb,
        DXGI_FORMAT_BC2_UNORM => TextureFormat::Bc2RgbaUnorm,
        DXGI_FORMAT_BC2_UNORM_SRGB => TextureFormat::Bc2RgbaUnormSrgb,
        DXGI_FORMAT_BC3_UNORM => TextureFormat::Bc3RgbaUnorm,
        DXGI_FORMAT_BC3_UNORM_SRGB => TextureFormat::Bc3RgbaUnormSrgb,
        DXGI_FORMAT_BC4_UNORM => TextureFormat::Bc4RUnorm,
        DXGI_FORMAT_BC4_SNORM => TextureFormat::Bc4RSnorm,
        DXGI_FORMAT_BC5_UNORM => TextureFormat::Bc5RgUnorm,
        DXGI_FORMAT_BC5_SNORM => TextureFormat::Bc5RgSnorm,
        DXGI_FORMAT_BC6H_UF16 => TextureFormat::Bc6hRgbUfloat,
        DXGI_FORMAT_BC6H_SF16 => TextureFormat::Bc6hRgbFloat,
        DXGI_FORMAT_BC7_UNORM => TextureFormat::Bc7RgbaUnorm,
        DXGI_FORMAT_BC7_UNORM_SRGB => TextureFormat::Bc7RgbaUnormSrgb,
        _ => return None,
    };
    proof {
        formats_come_back(found);
    }
    Some(found)
}

/// The DXGI format in which D3D12 stores a texture of format `format`.
///
/// D3D12 has no ETC2, EAC or ASTC compression, and no counterpart of `R64Uint` and `P010` here.
pub fn wgpu_to_d3d12(format: TextureFormat) -> (result: Option<u32>)
    ensures
        result == dxgi_format(format),
        result is None <==> (format is Etc2Rgb8Unorm || format is Etc2Rgb8UnormSrgb
            || format is Etc2Rgb8A1Unorm || format is Etc2Rgb8A1UnormSrgb
            || format is Etc2Rgba8Unorm || format is Etc2Rgba8UnormSrgb || format is EacR11Unorm
            || format is EacR11Snorm || format is EacRg11Unorm || format is EacRg11Snorm
            || format is Astc || format is R64Uint || format is P010),
        result matches Some(code) ==> 2 <= code <= 103,
{
    Some(match format {
        TextureFormat::R8Unorm => DXGI_FORMAT_R8_UNORM,
        TextureFormat::R8Snorm => DXGI_FORMAT_R8_SNORM,
        TextureFormat::R8Uint => DXGI_FORMAT_R8_UINT,
        TextureFormat::R8Sint => DXGI_FORMAT_R8_SINT,
        TextureFormat::R16Uint => DXGI_FORMAT_R16_UINT,
        TextureFormat::R16Sint => DXGI_FORMAT_R16_SINT,
        TextureFormat::R16Unorm => DXGI_FORMAT_R16_UNORM,
        TextureFormat::R16Snorm => DXGI_FORMAT_R16_SNORM,
        TextureFormat::R16Float => DXGI_FORMAT_R16_FLOAT,
        TextureFormat::Rg8Unorm => DXGI_FORMAT_R8G8_UNORM,
        TextureFormat::Rg8Snorm => DXGI_FORMAT_R8G8_SNORM,
        TextureFormat::Rg8Uint => DXGI_FORMAT_R8G8_UINT,
        TextureFormat::Rg8Sint => DXGI_FORMAT_R8G8_SINT,
        TextureFormat::Rg16Unorm => DXGI_FORMAT_R16G16_UNORM,
        TextureFormat::Rg16Snorm => DXGI_FORMAT_R16G16_SNORM,
        TextureFormat::R32Uint => DXGI_FORMAT_R32_UINT,
        TextureFormat::R32Sint => DXGI_FORMAT_R32_SINT,
        TextureFormat::R32Float => DXGI_FORMAT_R32_FLOAT,
        TextureFormat::Rg16Uint => DXGI_FORMAT_R16G16_UINT,
        TextureFormat::Rg16Sint => DXGI_FORMAT_R16G16_SINT,
        TextureFormat::Rg16Float => DXGI_FORMAT_R16G16_FLOAT,
        TextureFormat::Rgba8Unorm => DXGI_FORMAT_R8G8B8A8_UNORM,
        TextureFormat::Rgba8UnormSrgb => DXGI_FORMAT_R8G8B8A8_UNORM_SRGB,
        TextureFormat::Bgra8UnormSrgb => DXGI_FORMAT_B8G8R8A8_UNORM_SRGB,
        TextureFormat::Rgba8Snorm => DXGI_FORMAT_R8G8B8A8_SNORM,
        TextureFormat::Bgra8Unorm => DXGI_FORMAT_B8G8R8A8_UNORM,
        TextureFormat::Rgba8Uint => DXGI_FORMAT_R8G8B8A8_UINT,
        TextureFormat::Rgba8Sint => DXGI_FORMAT_R8G8B8A8_SINT,
        TextureFormat::Rgb9e5Ufloat => DXGI_FORMAT_R9G9B9E5_SHAREDEXP,
        TextureFormat::Rgb10a2Uint => DXGI_FORMAT_R10G10B10A2_UINT,
        TextureFormat::Rgb10a2Unorm => DXGI_FORMAT_R10G10B10A2_UNORM,
        TextureFormat::Rg11b10Ufloat => DXGI_FORMAT_R11G11B10_FLOAT,
        TextureFormat::Rg32Uint => DXGI_FORMAT_R32G32_UINT,
        TextureFormat::Rg32Sint => DXGI_FORMAT_R32G32_SINT,
        TextureFormat::Rg32Float => DXGI_FORMAT_R32G32_FLOAT,
        TextureFormat::Rgba16Uint => DXGI_FORMAT_R16G16B16A16_UINT,
        TextureFormat::Rgba16Sint => DXGI_FORMAT_R16G16B16A16_SINT,
        TextureFormat::Rgba16Unorm => DXGI_FORMAT_R16G16B16A16_UNORM,
        TextureFormat::Rgba16Snorm => DXGI_FORMAT_R16G16B16A16_SNORM,
        TextureFormat::Rgba16Float => DXGI_FORMAT_R16G16B16A16_FLOAT,
        TextureFormat::Rgba32Uint => DXGI_FORMAT_R32G32B32A32_UINT,
        TextureFormat::Rgba32Sint => DXGI_FORMAT_R32G32B32A32_SINT,
        TextureFormat::Rgba32Float => DXGI_FORMAT_R32G32B32A32_FLOAT,
        TextureFormat::Stencil8 => DXGI_FORMAT_D24_UNORM_S8_UINT,
        TextureFormat::Depth16Unorm => DXGI_FORMAT_D16_UNORM,
        TextureFormat::Depth24Plus => DXGI_FORMAT_D24_UNORM_S8_UINT,
        TextureFormat::Depth24PlusStencil8 => DXGI_FORMAT_D24_UNORM_S8_UINT,
        TextureFormat::Depth32Float => DXGI_FORMAT_D32_FLOAT,
        TextureFormat::Depth32FloatStencil8 => DXGI_FORMAT_D32_FLOAT_S8X24_UINT,
        TextureFormat::NV12 => DXGI_FORMAT_NV12,
        TextureFormat::Bc1RgbaUnorm => DXGI_FORMAT_BC1_UNORM,
        TextureFormat::Bc1RgbaUnormSrgb => DXGI_FORMAT_BC1_UNORM_SRGB,
        TextureFormat::Bc2RgbaUnorm => DXGI_FORMAT_BC2_UNORM,
        TextureFormat::Bc2RgbaUnormSrgb => DXGI_FORMAT_BC2_UNORM_SRGB,
        TextureFormat::Bc3RgbaUnorm => DXGI_FORMAT_BC3_UNORM,
        TextureFormat::Bc3RgbaUnormSrgb => DXGI_FORMAT_BC3_UNORM_SRGB,
        TextureFormat::Bc4RUnorm => DXGI_FORMAT_BC4_UNORM,
        TextureFormat::Bc4RSnorm => DXGI_FORMAT_BC4_SNORM,
        TextureFormat::Bc5RgUnorm => DXGI_FORMAT_BC5_UNORM,
        TextureFormat::Bc5RgSnorm => DXGI_FORMAT_BC5_SNORM,
        TextureFormat::Bc6hRgbUfloat => DXGI_FORMAT_BC6H_UF16,
        TextureFormat::Bc6hRgbFloat => DXGI_FORMAT_BC6H_SF16,
        TextureFormat::Bc7RgbaUnorm => DXGI_FORMAT_BC7_UNORM,
        TextureFormat::Bc7RgbaUnormSrgb => DXGI_FORMAT_BC7_UNORM_SRGB,
        TextureFormat::Etc2Rgb8Unorm
        | TextureFormat::Etc2Rgb8UnormSrgb
        | TextureFormat::Etc2Rgb8A1Unorm
        | TextureFormat::Etc2Rgb8A1UnormSrgb
        | TextureFormat::Etc2Rgba8Unorm
        | TextureFormat::Etc2Rgba8UnormSrgb
        | TextureFormat::EacR11Unorm
        | TextureFormat::EacR11Snorm
        | TextureFormat::EacRg11Unorm
        | TextureFormat::EacRg11Snorm
        | TextureFormat::Astc { block: _, channel: _ }
        | TextureFormat::R64Uint
        | TextureFormat::P010 => return None,
    })
}

/// Whether the DXGI code of `after` comes next after that of `before`.
pub open spec fn neighbours(before: TextureFormat, after: TextureFormat) -> bool {
    &&& dxgi_format(before) is Some
    &&& dxgi_format(after) is Some
    &&& dxgi_format(after)->0 == dxgi_format(before)->0 + 1
}

/// No two formats are stored alike, but for those that share the code of `Stencil8`.
pub proof fn codes_are_distinct(one: TextureFormat, other: TextureFormat)
    requires
        dxgi_format(one) is Some,
        dxgi_format(one) == dxgi_format(other),
    ensures
        is_canonical(one) && is_canonical(other) ==> one == other,
        one != other ==> dxgi_format(one) == Some(DXGI_FORMAT_D24_UNORM_S8_UINT),
{
}

/// Converting a format to its DXGI code and back gives the format again.
///
/// `Depth24Plus` and `Depth24PlusStencil8` are left out: their code comes back as `Stencil8`.
pub proof fn formats_come_back(format: TextureFormat)
    requires
        dxgi_format(format) is Some,
        is_canonical(format),
    ensures
        wgpu_format(dxgi_format(format)->0) == Some(format),
{
    let code = dxgi_format(format)->0;
    assert(stands_for(format, code));
    let found = choose|found: TextureFormat| stands_for(found, code);
    codes_are_distinct(format, found);
}

/// The two formats that [`formats_come_back`] leaves out come back as `Stencil8`.
pub proof fn packed_depth_comes_back_as_stencil(format: TextureFormat)
    requires
        !is_canonical(format),
    ensures
        dxgi_format(format) is Some,
        wgpu_format(dxgi_format(format)->0) == Some(TextureFormat::Stencil8),
{
    formats_come_back(TextureFormat::Stencil8);
}

/// Just the ETC2, EAC and ASTC formats, in all their blocks and channels, and `R64Uint` and `P010`
/// have no DXGI code.
pub proof fn formats_without_a_code(format: TextureFormat)
    ensures
        dxgi_format(format) is None <==> (format is Etc2Rgb8Unorm || format is Etc2Rgb8UnormSrgb
            || format is Etc2Rgb8A1Unorm || format is Etc2Rgb8A1UnormSrgb
            || format is Etc2Rgba8Unorm || format is Etc2Rgba8UnormSrgb || format is EacR11Unorm
            || format is EacR11Snorm || format is EacRg11Unorm || format is EacRg11Snorm
            || format is Astc || format is R64Uint || format is P010),
        dxgi_format(format) matches Some(code) ==> 2 <= code <= 103,
{
}

/// A format is what a DXGI code converts to just where it converts to that code, and is not one
/// of the two that give way to `Stencil8`.
pub proof fn conversions_are_inverse(format: TextureFormat, code: u32)
    ensures
        wgpu_format(code) == Some(format) <==> {
            &&& dxgi_format(format) == Some(code)
            &&& !(format is Depth24Plus)
            &&& !(format is Depth24PlusStencil8)
        },
        wgpu_format(code) is None ==> dxgi_format(format) != Some(code),
{
    if dxgi_format(format) == Some(code) {
        stored_codes_are_understood(format);
        if is_canonical(format) {
            formats_come_back(format);
        }
    }
}

/// The formats of one layout have neighbouring DXGI codes: after the normalised one come, in this
/// order, the one with sRGB encoding if there is one, and the unsigned, the signed normalised and
/// the signed one; or, after the floating-point one, the unsigned and the signed one.
pub proof fn layouts_have_neighbouring_codes()
    ensures
        neighbours(TextureFormat::R8Unorm, TextureFormat::R8Uint),
        neighbours(TextureFormat::R8Uint, TextureFormat::R8Snorm),
        neighbours(TextureFormat::R8Snorm, TextureFormat::R8Sint),
        neighbours(TextureFormat::Rg8Unorm, TextureFormat::Rg8Uint),
        neighbours(TextureFormat::Rg8Uint, TextureFormat::Rg8Snorm),
        neighbours(TextureFormat::Rg8Snorm, TextureFormat::Rg8Sint),
        neighbours(TextureFormat::Rgba8Unorm, TextureFormat::Rgba8UnormSrgb),
        neighbours(TextureFormat::Rgba8UnormSrgb, TextureFormat::Rgba8Uint),
        neighbours(TextureFormat::Rgba8Uint, TextureFormat::Rgba8Snorm),
        neighbours(TextureFormat::Rgba8Snorm, TextureFormat::Rgba8Sint),
        neighbours(TextureFormat::R16Unorm, TextureFormat::R16Uint),
        neighbours(TextureFormat::R16Uint, TextureFormat::R16Snorm),
        neighbours(TextureFormat::R16Snorm, TextureFormat::R16Sint),
        neighbours(TextureFormat::Rg16Float, TextureFormat::Rg16Unorm),
        neighbours(TextureFormat::Rg16Unorm, TextureFormat::Rg16Uint),
        neighbours(TextureFormat::Rg16Uint, TextureFormat::Rg16Snorm),
        neighbours(TextureFormat::Rg16Snorm, TextureFormat::Rg16Sint),
        neighbours(TextureFormat::Rgba16Float, TextureFormat::Rgba16Unorm),
        neighbours(TextureFormat::Rgba16Unorm, TextureFormat::Rgba16Uint),
        neighbours(TextureFormat::Rgba16Uint, TextureFormat::Rgba16Snorm),
        neighbours(TextureFormat::Rgba16Snorm, TextureFormat::Rgba16Sint),
        neighbours(TextureFormat::R32Float, TextureFormat::R32Uint),
        neighbours(TextureFormat::R32Uint, TextureFormat::R32Sint),
        neighbours(TextureFormat::Rg32Float, TextureFormat::Rg32Uint),
        neighbours(TextureFormat::Rg32Uint, TextureFormat::Rg32Sint),
        neighbours(TextureFormat::Rgba32Float, TextureFormat::Rgba32Uint),
        neighbours(TextureFormat::Rgba32Uint, TextureFormat::Rgba32Sint),
        neighbours(TextureFormat::Rgb10a2Unorm, TextureFormat::Rgb10a2Uint),
        neighbours(TextureFormat::Bc1RgbaUnorm, TextureFormat::Bc1RgbaUnormSrgb),
        neighbours(TextureFormat::Bc2RgbaUnorm, TextureFormat::Bc2RgbaUnormSrgb),
        neighbours(TextureFormat::Bc3RgbaUnorm, TextureFormat::Bc3RgbaUnormSrgb),
        neighbours(TextureFormat::Bc4RUnorm, TextureFormat::Bc4RSnorm),
        neighbours(TextureFormat::Bc5RgUnorm, TextureFormat::Bc5RgSnorm),
        neighbours(TextureFormat::Bc6hRgbUfloat, TextureFormat::Bc6hRgbFloat),
        neighbours(TextureFormat::Bc7RgbaUnorm, TextureFormat::Bc7RgbaUnormSrgb),
{
}

/// Converting a DXGI code to its format and back gives the code again.
pub proof fn codes_come_back(code: u32)
    requires
        wgpu_format(code) is Some,
    ensures
        dxgi_format(wgpu_format(code)->0) == Some(code),
{
}

/// Every DXGI code that some format is stored as converts back to a format.
pub proof fn stored_codes_are_understood(format: TextureFormat)
    requires
        dxgi_format(format) is Some,
    ensures
        wgpu_format(dxgi_format(format)->0) is Some,
{
    if is_canonical(format) {
        formats_come_back(format);
    } else {
        packed_depth_comes_back_as_stencil(format);
    }
}

} // verus!
