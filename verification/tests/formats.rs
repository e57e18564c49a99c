use bevy_openxr_d3d12::backend::{GraphicsWrap, D3D12};
use bevy_openxr_d3d12::dxgi::{
    DXGI_FORMAT_B8G8R8A8_UNORM_SRGB, DXGI_FORMAT_D24_UNORM_S8_UINT, DXGI_FORMAT_R8G8B8A8_UNORM_SRGB,
};
use bevy_openxr_d3d12::format::{
    d3d12_to_wgpu, wgpu_to_d3d12, AstcBlock, AstcChannel, TextureFormat,
};

fn pairs() -> Vec<(u32, TextureFormat)> {
    vec![
        (61, TextureFormat::R8Unorm),
        (63, TextureFormat::R8Snorm),
        (62, TextureFormat::R8Uint),
        (64, TextureFormat::R8Sint),
        (57, TextureFormat::R16Uint),
        (59, TextureFormat::R16Sint),
        (56, TextureFormat::R16Unorm),
        (58, TextureFormat::R16Snorm),
        (54, TextureFormat::R16Float),
        (49, TextureFormat::Rg8Unorm),
        (51, TextureFormat::Rg8Snorm),
        (50, TextureFormat::Rg8Uint),
        (52, TextureFormat::Rg8Sint),
        (35, TextureFormat::Rg16Unorm),
        (37, TextureFormat::Rg16Snorm),
        (42, TextureFormat::R32Uint),
        (43, TextureFormat::R32Sint),
        (41, TextureFormat::R32Float),
        (36, TextureFormat::Rg16Uint),
        (38, TextureFormat::Rg16Sint),
        (34, TextureFormat::Rg16Float),
        (28, TextureFormat::Rgba8Unorm),
        (29, TextureFormat::Rgba8UnormSrgb),
        (91, TextureFormat::Bgra8UnormSrgb),
        (31, TextureFormat::Rgba8Snorm),
        (87, TextureFormat::Bgra8Unorm),
        (30, TextureFormat::Rgba8Uint),
        (32, TextureFormat::Rgba8Sint),
        (67, TextureFormat::Rgb9e5Ufloat),
        (25, TextureFormat::Rgb10a2Uint),
        (24, TextureFormat::Rgb10a2Unorm),
        (26, TextureFormat::Rg11b10Ufloat),
        (17, TextureFormat::Rg32Uint),
        (18, TextureFormat::Rg32Sint),
        (16, TextureFormat::Rg32Float),
        (12, TextureFormat::Rgba16Uint),
        (14, TextureFormat::Rgba16Sint),
        (11, TextureFormat::Rgba16Unorm),
        (13, TextureFormat::Rgba16Snorm),
        (10, TextureFormat::Rgba16Float),
        (3, TextureFormat::Rgba32Uint),
        (4, TextureFormat::Rgba32Sint),
        (2, TextureFormat::Rgba32Float),
        (45, TextureFormat::Stencil8),
        (55, TextureFormat::Depth16Unorm),
        (40, TextureFormat::Depth32Float),
        (20, TextureFormat::Depth32FloatStencil8),
        (103, TextureFormat::NV12),
        (71, TextureFormat::Bc1RgbaUnorm),
        (72, TextureFormat::Bc1RgbaUnormSrgb),
        (74, TextureFormat::Bc2RgbaUnorm),
        (75, TextureFormat::Bc2RgbaUnormSrgb),
        (77, TextureFormat::Bc3RgbaUnorm),
        (78, TextureFormat::Bc3RgbaUnormSrgb),
        (80, TextureFormat::Bc4RUnorm),
        (81, TextureFormat::Bc4RSnorm),
        (83, TextureFormat::Bc5RgUnorm),
        (84, TextureFormat::Bc5RgSnorm),
        (95, TextureFormat::Bc6hRgbUfloat),
        (96, TextureFormat::Bc6hRgbFloat),
        (98, TextureFormat::Bc7RgbaUnorm),
        (99, TextureFormat::Bc7RgbaUnormSrgb),
    ]
}

fn formats_without_a_code() -> Vec<TextureFormat> {
    vec![
        TextureFormat::R64Uint,
        TextureFormat::P010,
        TextureFormat::Etc2Rgb8Unorm,
        TextureFormat::Etc2Rgb8UnormSrgb,
        TextureFormat::Etc2Rgb8A1Unorm,
        TextureFormat::Etc2Rgb8A1UnormSrgb,
        TextureFormat::Etc2Rgba8Unorm,
        TextureFormat::Etc2Rgba8UnormSrgb,
        TextureFormat::EacR11Unorm,
        TextureFormat::EacR11Snorm,
        TextureFormat::EacRg11Unorm,
        TextureFormat::EacRg11Snorm,
        TextureFormat::Astc { block: AstcBlock::B4x4, channel: AstcChannel::Unorm },
        TextureFormat::Astc { block: AstcBlock::B12x12, channel: AstcChannel::Hdr },
    ]
}

#[test]
fn every_pair_converts_both_ways() {
    assert_eq!(pairs().len(), 62);
    for (code, format) in pairs() {
        assert_eq!(d3d12_to_wgpu(code), Some(format));
        assert_eq!(wgpu_to_d3d12(format), Some(code));
    }
}

#[test]
fn packed_depth_formats_come_back_as_stencil() {
    for format in vec![TextureFormat::Depth24Plus, TextureFormat::Depth24PlusStencil8] {
        assert_eq!(wgpu_to_d3d12(format), Some(45));
    }
    assert_eq!(wgpu_to_d3d12(TextureFormat::Stencil8), Some(DXGI_FORMAT_D24_UNORM_S8_UINT));
    assert_eq!(d3d12_to_wgpu(DXGI_FORMAT_D24_UNORM_S8_UINT), Some(TextureFormat::Stencil8));
}

#[test]
fn formats_that_d3d12_lacks_have_no_code() {
    for format in formats_without_a_code() {
        assert_eq!(wgpu_to_d3d12(format), None);
    }
}

#[test]
fn other_codes_have_no_format() {
    let known: Vec<u32> = pairs().into_iter().map(|pair| pair.0).collect();
    let mut found = 0;
    for code in 0..300u32 {
        if known.contains(&code) {
            found += 1;
            assert!(d3d12_to_wgpu(code).is_some());
        } else {
            assert_eq!(d3d12_to_wgpu(code), None);
        }
    }
    assert_eq!(found, 62);
    assert_eq!(d3d12_to_wgpu(u32::MAX), None);
}

#[test]
fn no_two_canonical_formats_share_a_code() {
    let all = pairs();
    for (i, one) in all.iter().enumerate() {
        for other in all.iter().skip(i + 1) {
            assert_ne!(one.0, other.0);
            assert_ne!(one.1, other.1);
        }
    }
}

#[test]
fn the_backend_converts_formats() {
    assert_eq!(
        D3D12::from_wgpu_format(TextureFormat::Bgra8UnormSrgb),
        Some(DXGI_FORMAT_B8G8R8A8_UNORM_SRGB)
    );
    assert_eq!(D3D12::from_wgpu_format(TextureFormat::R64Uint), None);
    assert_eq!(
        D3D12::into_wgpu_format(DXGI_FORMAT_R8G8B8A8_UNORM_SRGB),
        Some(TextureFormat::Rgba8UnormSrgb)
    );
    assert_eq!(D3D12::into_wgpu_format(0), None);
}

#[test]
fn wrapping_keeps_the_item() {
    let GraphicsWrap::D3D12(item) = D3D12::wrap(17u8);
    assert_eq!(item, 17);
}
