//! The flag sets of `wgpu` that the backend asks for.
//!
//! `wgpu::Features` and `wgpu::TextureUsages` are sets of one-bit flags. They stay the types of
//! `wgpu`; contracts speak of a set through the names of the flags in it.

use vstd::prelude::*;

verus! {

/// A set of `wgpu` device features.
#[verifier::external_type_specification]
#[verifier::external_body]
pub struct ExFeatures(wgpu::Features);

/// A set of the ways in which a `wgpu` texture may be used.
#[verifier::external_type_specification]
#[verifier::external_body]
pub struct ExTextureUsages(wgpu::TextureUsages);

/// The names of the flags that are set in `features`.
pub uninterp spec fn feature_names(features: wgpu::Features) -> Set<Seq<char>>;

/// The names of the flags that are set in `usages`.
pub uninterp spec fn usage_names(usages: wgpu::TextureUsages) -> Set<Seq<char>>;

/// The constant `wgpu::Features::TEXTURE_ADAPTER_SPECIFIC_FORMAT_FEATURES`, a single flag.
#[verifier::external_body]
fn texture_adapter_specific_format_features() -> (features: wgpu::Features)
    ensures
        feature_names(features) == set!["TEXTURE_ADAPTER_SPECIFIC_FORMAT_FEATURES"@],
{
    wgpu::Features::TEXTURE_ADAPTER_SPECIFIC_FORMAT_FEATURES
}

/// The constant `wgpu::Features::MULTIVIEW`, a single flag.
#[verifier::external_body]
fn multiview() -> (features: wgpu::Features)
    ensures
        feature_names(features) == set!["MULTIVIEW"@],
{
    wgpu::Features::MULTIVIEW
}

/// The constant `wgpu::Features::MULTI_DRAW_INDIRECT_COUNT`, a single flag.
#[verifier::external_body]
fn multi_draw_indirect_count() -> (features: wgpu::Features)
    ensures
        feature_names(features) == set!["MULTI_DRAW_INDIRECT_COUNT"@],
{
    wgpu::Features::MULTI_DRAW_INDIRECT_COUNT
}

/// The operator `|` of `wgpu::Features`: the flags that are set in either operand.
///
/// Each flag of `wgpu::Features` is one bit, and `|` joins the bits.
#[verifier::external_body]
fn join_features(left: wgpu::Features, right: wgpu::Features) -> (joined: wgpu::Features)
    ensures
        feature_names(joined) == feature_names(left).union(feature_names(right)),
{
    left | right
}

/// The constant `wgpu::TextureUsages::RENDER_ATTACHMENT`, a single flag.
#[verifier::external_body]
fn render_attachment() -> (usages: wgpu::TextureUsages)
    ensures
        usage_names(usages) == set!["RENDER_ATTACHMENT"@],
{
    wgpu::TextureUsages::RENDER_ATTACHMENT
}

/// The constant `wgpu::TextureUsages::COPY_DST`, a single flag.
#[verifier::external_body]
fn copy_dst() -> (usages: wgpu::TextureUsages)
    ensures
        usage_names(usages) == set!["COPY_DST"@],
{
    wgpu::TextureUsages::COPY_DST
}

/// The operator `|` of `wgpu::TextureUsages`: the flags that are set in either operand.
///
/// Each flag of `wgpu::TextureUsages` is one bit, and `|` joins the bits.
#[verifier::external_body]
fn join_usages(left: wgpu::TextureUsages, right: wgpu::TextureUsages) -> (joined:
    wgpu::TextureUsages)
    ensures
        usage_names(joined) == usage_names(left).union(usage_names(right)),
{
    left | right
}

/// The names of the features that a D3D12 device is opened with.
pub open spec fn required_feature_names() -> Set<Seq<char>> {
    set![
        "TEXTURE_ADAPTER_SPECIFIC_FORMAT_FEATURES"@,
        "MULTIVIEW"@,
        "MULTI_DRAW_INDIRECT_COUNT"@,
    ]
}

/// The features that a D3D12 device is opened with.
pub fn required_features() -> (features: wgpu::Features)
    ensures
        feature_names(features) == required_feature_names(),
        forall|name: Seq<char>| #[trigger]
            feature_names(features).contains(name) <==> name
                == "TEXTURE_ADAPTER_SPECIFIC_FORMAT_FEATURES"@ || name == "MULTIVIEW"@ || name
                == "MULTI_DRAW_INDIRECT_COUNT"@,
{
    let features = join_features(
        join_features(texture_adapter_specific_format_features(), multiview()),
        multi_draw_indirect_count(),
    );
    assert(feature_names(features) =~= required_feature_names());
    features
}

/// The names of the usages of a swapchain texture.
pub open spec fn swapchain_usage_names() -> Set<Seq<char>> {
    set!["RENDER_ATTACHMENT"@, "COPY_DST"@]
}

/// The usages of a swapchain texture.
pub fn swapchain_usages() -> (usages: wgpu::TextureUsages)
    ensures
        usage_names(usages) == swapchain_usage_names(),
        forall|name: Seq<char>| #[trigger]
            usage_names(usages).contains(name) <==> name == "RENDER_ATTACHMENT"@ || name
                == "COPY_DST"@,
{
    let usages = join_usages(render_attachment(), copy_dst());
    assert(usage_names(usages) =~= swapchain_usage_names());
    usages
}

} // verus!
