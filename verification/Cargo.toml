[package]
name = "core_3d"
version = "0.1.0"
edition = "2021"
publish = false

[dependencies]
bevy_app = { version = "0.16", default-features = false }
bevy_asset = { version = "0.16", default-features = false }
bevy_color = { version = "0.16", default-features = false }
bevy_ecs = { version = "0.16", default-features = false, features = ["std"] }
bevy_image = { version = "0.16", default-features = false }
bevy_math = { version = "0.16", default-features = false }
bevy_render = { version = "0.16", default-features = false }
bevy_utils = { version = "0.15", default-features = false }
radsort = "0.1"
