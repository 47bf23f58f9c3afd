[package]
name = "av1_player"
version = "0.1.0"
edition = "2021"
publish = false

[dependencies]
bytemuck = { version = "1", features = ["derive"] }
miette = { version = "7", features = ["fancy"] }
oxideav-core = "*"
oxideav-mkv = "*"
pollster = "*"
rav1d = { version = "*", default-features = false, features = ["bitdepth_8", "bitdepth_16"] }
rayon = "1"
rodio = { version = "*", default-features = false, features = ["playback"] }
thiserror = "2"
wgpu = { version = "*", default-features = false, features = ["std", "wgsl", "vulkan"] }
winit = { version = "0.30", default-features = false, features = ["x11", "rwh_06"] }
