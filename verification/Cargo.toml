[package]
name = "racing_game"
version = "0.1.0"
edition = "2021"
publish = false

[dependencies]
rand = "=0.8.8"
serde = { version = "=1.0.229", features = ["derive"] }
serde_json = "=1.0.154"
bevy = { version = "=0.16.1", default-features = false, features = ["std", "multi_threaded", "bevy_asset", "bevy_state", "bevy_window", "bevy_render", "bevy_core_pipeline", "bevy_sprite", "bevy_text", "bevy_ui", "default_font", "bevy_log"] }
