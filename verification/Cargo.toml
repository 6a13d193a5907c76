[package]
name = "monster_ai"
version = "0.1.0"
edition = "2021"
publish = false

[dependencies]
rand = "0.8"
bevy = { version = "0.7", default-features = false, features = ["bevy_winit", "bevy_render", "bevy_core_pipeline", "x11"] }
bevy_rapier2d = "0.13"
