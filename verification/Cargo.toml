[package]
name = "sprite_pipeline"
version = "0.1.0"
edition = "2021"
publish = false

[dependencies]
bytemuck = "1"
bevy = { version = "0.15", default-features = false, features = ["bevy_asset", "bevy_core_pipeline", "bevy_render", "bevy_sprite"] }
