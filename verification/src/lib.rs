//! The D3D12 graphics backend for OpenXR sessions of a `wgpu` application.
//!
//! The crate holds what the backend decides: which swapchain formats and textures correspond,
//! which adapter and device a session renders with, what is asked of OpenXR, D3D12 and `wgpu`, and
//! what becomes of their answers. The calls into those systems are made around it.

pub mod backend;
pub mod decisions;
pub mod dxgi;
pub mod error;
pub mod extensions;
pub mod feature_level;
pub mod flags;
pub mod format;
pub mod init;
pub mod run;
pub mod session;
pub mod texture;
