[package]
name = "outline_reveal"
version = "0.1.0"
edition = "2021"
publish = false

[dependencies]
bevy = { version = "0.8", default-features = false, features = ["bevy_asset", "bevy_core_pipeline", "bevy_render", "bevy_sprite", "bevy_winit", "x11"] }
bevy_prototype_lyon = "0.6"
bevy_tweening = { version = "0.5", default-features = false }
