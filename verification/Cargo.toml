[package]
name = "orbital_escape"
version = "0.1.0"
edition = "2021"
publish = false

[dependencies]
bevy = { version = "=0.19.1", default-features = false, features = ["std", "async_executor", "multi_threaded", "bevy_color", "bevy_asset", "bevy_image", "bevy_window", "bevy_sprite", "bevy_text", "default_font", "bevy_ui", "bevy_state"] }
bevy_rapier2d = { version = "=0.36.0", default-features = false, features = ["dim2"] }
