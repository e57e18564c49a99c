//! The OpenXR extensions that the backend needs.

use vstd::prelude::*;

use crate::backend::D3D12;

verus! {

/// A set of OpenXR extensions.
#[verifier::external_type_specification]
#[verifier::external_body]
pub struct ExExtensionSet(openxr::ExtensionSet);

/// The nul-terminated names of the extensions in `extensions`, as its method `names` lists them.
pub uninterp spec fn extension_names(extensions: openxr::ExtensionSet) -> Set<Seq<u8>>;

/// `FromIterator<&[u8]>` of `openxr::ExtensionSet`, on a single name.
///
/// The set is the empty default one with that one extension enabled: a name that the platform
/// knows sets the flag of its extension, another is kept as it is.
#[verifier::external_body]
fn extension_named(name: &[u8]) -> (extensions: openxr::ExtensionSet)
    ensures
        extension_names(extensions) == set![name@],
{
    openxr::ExtensionSet::from_iter(std::iter::once(name))
}

/// A set of OpenXR extensions, as the session setup passes it around.
pub struct OxrExtensions(pub openxr::ExtensionSet);

/// The name `XR_KHR_D3D12_enable` with its terminating nul.
pub open spec fn khr_d3d12_enable() -> Seq<u8> {
    seq![
        0x58, 0x52, 0x5f, 0x4b, 0x48, 0x52, 0x5f, 0x44, 0x33, 0x44,
        0x31, 0x32, 0x5f, 0x65, 0x6e, 0x61, 0x62, 0x6c, 0x65, 0x00,
    ]
}

/// The name is that of the extension in ASCII, character by character, and a nul.
pub proof fn name_is_that_of_the_extension(i: int)
    requires
        0 <= i < "XR_KHR_D3D12_enable"@.len(),
    ensures
        khr_d3d12_enable().len() == "XR_KHR_D3D12_enable"@.len() + 1,
        khr_d3d12_enable()[i] == "XR_KHR_D3D12_enable"@[i] as int,
        khr_d3d12_enable().last() == 0,
{
    reveal_strlit("XR_KHR_D3D12_enable");
}

impl D3D12 {
    /// The extensions without which the backend cannot run: `XR_KHR_D3D12_enable` alone.
    pub fn required_exts() -> (extensions: OxrExtensions)
        ensures
            extension_names(extensions.0) == set![khr_d3d12_enable()],
    {
        let name: [u8; 20] = [
            0x58, 0x52, 0x5f, 0x4b, 0x48, 0x52, 0x5f, 0x44, 0x33, 0x44,
            0x31, 0x32, 0x5f, 0x65, 0x6e, 0x61, 0x62, 0x6c, 0x65, 0x00,
        ];
        assert(name@ =~= khr_d3d12_enable());
        OxrExtensions(extension_named(name.as_slice()))
    }
}

} // verus!
