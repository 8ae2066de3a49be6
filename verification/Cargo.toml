[package]
name = "bevy_arca"
version = "0.1.0"
edition = "2021"
publish = false

[dependencies]
bevy = { version = "=0.14.2", default-features = false, features = ["bevy_asset", "bevy_color", "bevy_scene"] }
gltf = { version = "=1.4.1", default-features = false, features = ["KHR_texture_transform", "names", "utils"] }
image = { version = "=0.25.10", default-features = false, features = ["jpeg", "png"] }
raw-window-handle = "=0.6.2"
smallvec = "=1.16.4"
thiserror = "=1.0.69"
windows = { version = "=0.58.0", features = ["Win32_Foundation", "Win32_Graphics_Direct3D", "Win32_Graphics_Direct3D12", "Win32_Graphics_Direct3D_Fxc", "Win32_Graphics_Dxgi", "Win32_Graphics_Dxgi_Common", "Win32_Security", "Win32_System_Threading"] }

[dev-dependencies]
wgpu-types = "=0.20.0"
