[package]
name = "rust_to_wgsl"
version = "0.1.0"
edition = "2021"
publish = false

[dependencies]
proc-macro2 = { version = "=1.0.107", default-features = false }
quote = { version = "=1.0.47", default-features = false }
syn = { version = "=2.0.119", default-features = false, features = ["clone-impls", "full", "parsing", "printing"] }
bevy = { version = "=0.15.3", default-features = false, features = ["bevy_render"] }
wgpu = { version = "=23.0.1", default-features = false }
