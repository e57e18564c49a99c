# bevy_openxr_d3d12

The D3D12 graphics backend for OpenXR sessions of a `wgpu` application, with what it decides
verified in [Verus](https://github.com/verus-lang/verus).

`src/` is the verified library:

- `format`, `dxgi`: the correspondence between texture formats and DXGI codes.
- `texture`: how the image of a swapchain becomes a texture.
- `init`: the setup of a device, from the requirements of the OpenXR runtime to the device, and the
  one for use without a runtime; as a machine that decides on one action after the other.
- `run`: what whole runs of that machine come to, against any system.
- `feature_level`: the feature level of a device, and whether it is enough.
- `session`: the request for a session, and what becomes of it.
- `error`: result codes and errors.
- `extensions`, `flags`: the sets of extensions, features and usages that are asked for. These are
  types of `openxr` and `wgpu`; what is taken on trust of them is stated at each function marked
  `external_body`.
- `backend`: the type that carries the functions of the backend.

`app/` makes the calls: `convert` and `error` turn the plain types of the library into those of
`wgpu` and `openxr`, `backend` offers what needs no D3D12, `setup` carries out the actions of a setup
on any backend of `wgpu_hal`, and `d3d12`, on Windows, adds the calls into D3D12.
