use bevy_openxr_d3d12::backend::D3D12;
use bevy_openxr_d3d12::error::{cvt, OxrError, XrResult};
use bevy_openxr_d3d12::feature_level::{
    feature_levels_query, get_device_feature_level, meets_feature_level,
};
use bevy_openxr_d3d12::flags::{required_features, swapchain_usages};
use bevy_openxr_d3d12::format::TextureFormat;
use bevy_openxr_d3d12::session::SessionCreateInfo;
use bevy_openxr_d3d12::texture::{Extent3d, TextureDimension, UVec2};

#[test]
fn codes_of_zero_and_above_are_successes() {
    for raw in vec![0, 1, 8, i32::MAX] {
        assert_eq!(cvt(XrResult::from_raw(raw)), Ok(XrResult(raw)));
    }
}

#[test]
fn codes_below_zero_are_errors() {
    for raw in vec![-1, -2, i32::MIN] {
        let error = cvt(XrResult::from_raw(raw)).unwrap_err();
        assert_eq!(error.into_raw(), raw);
    }
}

#[test]
fn codes_of_the_bindings_are_sorted() {
    let timeout = openxr::sys::Result::TIMEOUT_EXPIRED.into_raw();
    assert!(cvt(XrResult::from_raw(timeout)).is_ok());
    let lost = openxr::sys::Result::ERROR_SESSION_LOST.into_raw();
    let error = cvt(XrResult::from_raw(lost)).unwrap_err();
    let back = openxr::sys::Result::from_raw(error.into_raw());
    assert_eq!(back, openxr::sys::Result::ERROR_SESSION_LOST);
}

#[test]
fn d3d12_is_the_one_required_extension() {
    let extensions = D3D12::required_exts();
    let names = extensions.0.names();
    assert_eq!(names, vec![&b"XR_KHR_D3D12_enable\0"[..]]);
}

#[test]
fn three_features_are_required() {
    let features = required_features();
    assert_eq!(
        features,
        wgpu::Features::TEXTURE_ADAPTER_SPECIFIC_FORMAT_FEATURES
            | wgpu::Features::MULTIVIEW
            | wgpu::Features::MULTI_DRAW_INDIRECT_COUNT
    );
    let mut names: Vec<&str> = features.iter_names().map(|named| named.0).collect();
    names.sort();
    assert_eq!(
        names,
        vec![
            "MULTIVIEW",
            "MULTI_DRAW_INDIRECT_COUNT",
            "TEXTURE_ADAPTER_SPECIFIC_FORMAT_FEATURES",
        ]
    );
}

#[test]
fn swapchain_textures_are_rendered_and_copied_to() {
    let usages = swapchain_usages();
    assert_eq!(usages, wgpu::TextureUsages::RENDER_ATTACHMENT | wgpu::TextureUsages::COPY_DST);
    let mut names: Vec<&str> = usages.iter_names().map(|named| named.0).collect();
    names.sort();
    assert_eq!(names, vec!["COPY_DST", "RENDER_ATTACHMENT"]);
}

#[test]
fn the_query_asks_for_the_highest_level_first() {
    let query = feature_levels_query();
    assert_eq!(query.num_feature_levels, 4);
    assert_eq!(query.feature_levels_requested, [0xc100, 0xc000, 0xb100, 0xb000]);
    assert_eq!(query.max_supported_feature_level, 0);
}

#[test]
fn the_level_is_what_the_device_wrote() {
    let mut query = feature_levels_query();
    assert_eq!(get_device_feature_level(&query), 0);
    query.max_supported_feature_level = 0xb100;
    assert_eq!(get_device_feature_level(&query), 0xb100);
}

#[test]
fn levels_are_compared_without_a_sign() {
    assert!(meets_feature_level(0xc000, 0xc000));
    assert!(meets_feature_level(0xc100, 0xc000));
    assert!(!meets_feature_level(0xb100, 0xc000));
    assert!(!meets_feature_level(0xc100, -1));
    assert!(meets_feature_level(u32::MAX, -1));
    assert!(meets_feature_level(0x8000_0000, i32::MIN));
    assert!(!meets_feature_level(0x7fff_ffff, i32::MIN));
}

#[test]
fn an_unanswered_query_meets_no_level() {
    let level = get_device_feature_level(&feature_levels_query());
    assert!(!meets_feature_level(level, 0xb000));
    assert!(!meets_feature_level(level, 1));
    assert!(meets_feature_level(level, 0));
}

#[test]
fn a_swapchain_image_becomes_a_two_layer_texture() {
    let result =
        D3D12::to_wgpu_img::<()>(true, TextureFormat::Rgba8UnormSrgb, UVec2 { x: 1832, y: 1920 });
    let texture = result.ok().unwrap();
    let size = Extent3d { width: 1832, height: 1920, depth_or_array_layers: 2 };
    assert_eq!(texture.raw.format, TextureFormat::Rgba8UnormSrgb);
    assert_eq!(texture.raw.dimension, TextureDimension::D2);
    assert_eq!(texture.raw.size, size);
    assert_eq!(texture.raw.mip_level_count, 1);
    assert_eq!(texture.raw.sample_count, 1);
    let descriptor = texture.descriptor;
    assert_eq!(descriptor.label, "VR Swapchain");
    assert_eq!(descriptor.size, size);
    assert_eq!(descriptor.mip_level_count, 1);
    assert_eq!(descriptor.sample_count, 1);
    assert_eq!(descriptor.dimension, TextureDimension::D2);
    assert_eq!(descriptor.format, TextureFormat::Rgba8UnormSrgb);
    assert_eq!(
        descriptor.usage,
        wgpu::TextureUsages::RENDER_ATTACHMENT | wgpu::TextureUsages::COPY_DST
    );
    assert!(descriptor.view_formats.is_empty());
}

#[test]
fn a_device_of_another_backend_is_a_mismatch() {
    let result = D3D12::to_wgpu_img::<()>(false, TextureFormat::R8Unorm, UVec2 { x: 1, y: 1 });
    let error = result.err().unwrap();
    assert_eq!(
        error,
        OxrError::GraphicsBackendMismatch {
            item: "Wgpu Device",
            backend: "unknown",
            expected_backend: "d3d12",
        }
    );
}

#[test]
fn a_session_is_requested_with_the_device_and_queue() {
    let info = SessionCreateInfo { device: "device", queue: "queue" };
    let request = D3D12::create_session(42, info, "chain");
    assert_eq!(request.ty, openxr::sys::StructureType::SESSION_CREATE_INFO.into_raw());
    assert_eq!(request.ty, 8);
    assert_eq!(request.create_flags, 0);
    assert_eq!(request.system_id, 42);
    assert_eq!(
        request.next.ty,
        openxr::sys::StructureType::GRAPHICS_BINDING_D3D12_KHR.into_raw()
    );
    assert_eq!(request.next.ty, 1000028000);
    assert_eq!(request.next.next, "chain");
    assert_eq!(request.next.device, "device");
    assert_eq!(request.next.queue, "queue");
}

#[test]
fn a_session_is_returned_unless_the_code_is_an_error() {
    assert_eq!(D3D12::session_created(XrResult(0), 99u64), Ok(99));
    assert_eq!(D3D12::session_created(XrResult(3), 99u64), Ok(99));
    assert_eq!(D3D12::session_created(XrResult(-2), 99u64), Err(XrResult(-2)));
}
