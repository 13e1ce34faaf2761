[package]
name = "jellium"
version = "0.1.0"
edition = "2021"
publish = false

[dependencies]
serde_json = "1"
clap = { version = "4", features = ["derive", "env"] }
crossbeam-channel = "0.5"
iced_core = "*"
iced_runtime = "*"
khronos-egl = { version = "6", features = ["dynamic"] }
nix = { version = "*", features = ["fs"] }
parking_lot = "0.12"
pollster = "*"
raw-window-handle = "0.6"
thiserror = "2"
tracing = "0.1"
wgpu = { version = "*", default-features = false, features = ["std", "vulkan", "wgsl"] }
