//! The creation of an OpenXR session on a D3D12 device.

use vstd::prelude::*;

use crate::backend::D3D12;
use crate::error::{cvt, XrResult};

verus! {

/// The number of `openxr::sys::SessionCreateInfo::TYPE`, by its `into_raw`.
#[verifier::external_body]
fn session_create_info_type() -> (ty: i32)
    ensures
        ty == 8,
{
    openxr::sys::SessionCreateInfo::TYPE.into_raw()
}

/// The number of `openxr::sys::StructureType::GRAPHICS_BINDING_D3D12_KHR`, by its `into_raw`.
///
/// This is the type of `openxr::sys::GraphicsBindingD3D12KHR`, which exists on Windows alone.
#[verifier::external_body]
fn graphics_binding_type() -> (ty: i32)
    ensures
        ty == 1000028000,
{
    openxr::sys::StructureType::GRAPHICS_BINDING_D3D12_KHR.into_raw()
}

/// The number of `openxr::sys::SessionCreateFlags::default()`, by its `into_raw`: no flag is set.
#[verifier::external_body]
fn default_session_create_flags() -> (flags: u64)
    ensures
        flags == 0,
{
    openxr::sys::SessionCreateFlags::default().into_raw()
}

/// The D3D12 objects that a session renders with.
#[derive(Debug, PartialEq)]
pub struct SessionCreateInfo<D, Q> {
    pub device: D,
    pub queue: Q,
}

/// The structure that binds a session to D3D12.
pub struct GraphicsBinding<N, D, Q> {
    /// The type tag of the structure.
    pub ty: i32,
    /// The further structures of the request.
    pub next: N,
    pub device: D,
    pub queue: Q,
}

/// The request for a session, as it is handed to the OpenXR runtime.
pub struct SessionRequest<N, D, Q> {
    /// The type tag of the request.
    pub ty: i32,
    /// The binding, to which the request points.
    pub next: GraphicsBinding<N, D, Q>,
    pub create_flags: u64,
    pub system_id: u64,
}

impl D3D12 {
    /// The request for a session of the given system on the given D3D12 objects.
    ///
    /// `next` stands for the chain of further structures; the binding comes before it.
    pub fn create_session<N, D, Q>(
        system_id: u64,
        info: SessionCreateInfo<D, Q>,
        next: N,
    ) -> (request: SessionRequest<N, D, Q>)
        ensures
            request == (SessionRequest {
                ty: 8,
                next: GraphicsBinding {
                    ty: 1000028000,
                    next,
                    device: info.device,
                    queue: info.queue,
                },
                create_flags: 0,
                system_id,
            }),
    {
        let binding = GraphicsBinding {
            ty: graphics_binding_type(),
            next,
            device: info.device,
            queue: info.queue,
        };
        SessionRequest {
            ty: session_create_info_type(),
            next: binding,
            create_flags: default_session_create_flags(),
            system_id,
        }
    }

    /// What comes of the request: the handle that the runtime wrote, unless it reports an error.
    pub fn session_created<H>(code: XrResult, session: H) -> (result: Result<H, XrResult>)
        ensures
            code.0 >= 0 ==> result == Ok::<H, XrResult>(session),
            code.0 < 0 ==> result == Err::<H, XrResult>(code),
    {
        match cvt(code) {
            Ok(_) => Ok(session),
            Err(error) => Err(error),
        }
    }
}

} // verus!
