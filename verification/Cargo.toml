[package]
name = "greeting_card"
version = "0.1.0"
edition = "2021"
publish = false

[dependencies]
whoami = "=1.6.1"
bevy = { version = "0.9", default-features = false, features = ["bevy_asset", "bevy_winit", "bevy_core_pipeline", "bevy_render", "bevy_sprite", "bevy_text", "bevy_ui", "x11"] }
