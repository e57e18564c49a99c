//! Result codes of the OpenXR runtime, and the errors of the backend.

use vstd::prelude::*;

verus! {

/// A result code of the OpenXR runtime, by its number.
#[derive(Debug, Clone, Copy, PartialEq, Eq, Structural)]
pub struct XrResult(pub i32);

impl XrResult {
    /// The result whose number is `raw`.
    pub fn from_raw(raw: i32) -> (result: XrResult)
        ensures
            result.0 == raw,
    {
        XrResult(raw)
    }

    /// The number of this result.
    pub fn into_raw(self) -> (raw: i32)
        ensures
            raw == self.0,
    {
        self.0
    }
}

/// Sorts a result code into success and error.
///
/// OpenXR numbers its errors below zero. A code of zero or above is a success, and is kept: some
/// successes carry a qualification.
pub fn cvt(x: XrResult) -> (result: Result<XrResult, XrResult>)
    ensures
        x.0 >= 0 ==> result == Ok::<XrResult, XrResult>(x),
        x.0 < 0 ==> result == Err::<XrResult, XrResult>(x),
{
    if x.into_raw() >= 0 {
        Ok(x)
    } else {
        Err(x)
    }
}

/// What can go wrong in the choice of an adapter.
#[derive(Debug, Clone, Copy, PartialEq, Eq, Structural)]
pub enum InitError {
    /// No adapter is the one that the OpenXR runtime asks for.
    FailedToFindD3D12Adapter,
}

/// What can go wrong in the backend.
///
/// `E` is the type in which the errors of `wgpu` are handed on.
#[derive(Debug, PartialEq, Eq)]
pub enum OxrError<E> {
    /// The OpenXR runtime answered with an error code.
    OpenXrError(XrResult),
    /// `wgpu` reported an error.
    WgpuError(E),
    /// An item belongs to another graphics backend than the expected one.
    GraphicsBackendMismatch {
        item: &'static str,
        backend: &'static str,
        expected_backend: &'static str,
    },
    /// The choice of an adapter failed.
    InitError(InitError),
    /// There is no adapter at all.
    NoAvailableBackend,
    /// The device falls short of what the OpenXR runtime requires.
    FailedGraphicsRequirements,
}

} // verus!
