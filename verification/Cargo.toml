[package]
name = "rune_machine"
version = "0.1.0"
edition = "2021"
publish = false

[dependencies]
bevy = { version = "0.16", default-features = false, features = ["bevy_asset", "bevy_core_pipeline", "bevy_log", "bevy_render", "bevy_sprite", "bevy_window"] }
avian2d = "0.3"
