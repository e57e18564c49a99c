[package]
name = "bevy_openxr_d3d12"
version = "0.1.0"
edition = "2021"
publish = false

[dependencies]
wgpu = { version = "=27.0.1", default-features = false, features = ["std", "dx12", "noop"] }
wgpu-hal = { version = "=27.0.4", default-features = false, features = ["dx12"] }
openxr = "=0.22.0"
bevy_log = "=0.18.1"
bevy_math = "=0.18.1"
winapi = { version = "=0.3.9", features = ["dxgiformat", "d3d12", "d3dcommon"] }
windows = { version = "=0.58.0", features = ["Win32_Graphics_Direct3D12", "Win32_Graphics_Dxgi", "Win32_Graphics_Dxgi_Common"] }
windows-core = "=0.58.0"
