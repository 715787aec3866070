[package]
name = "sprite_character"
version = "0.1.0"
edition = "2021"
publish = false

[dependencies]
bevy_time = "0.9"
bevy = { version = "0.9", default-features = false, features = ["bevy_asset", "bevy_winit", "render", "png", "x11"] }
