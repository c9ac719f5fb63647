[package]
name = "bevy_offscreen"
version = "0.1.0"
edition = "2021"
publish = false

[dependencies]
bevy = { version = "0.17", default-features = false }
bevy_app = "0.17"
bevy_asset = "0.17"
bevy_camera = "0.17"
bevy_color = "0.17"
bevy_ecs = "0.17"
bevy_image = "0.17"
bevy_math = "0.17"
bevy_window = "0.17"
uuid = "1"
wgpu-types = "26"
