[package]
name = "the_caverns"
version = "0.1.0"
edition = "2021"
publish = false

[dependencies]
anyhow = "=1.0.104"
bevy = { version = "=0.10.1", default-features = false, features = ["bevy_asset", "bevy_core_pipeline", "bevy_render", "bevy_sprite", "bevy_text", "bevy_ui", "bevy_winit", "x11"] }
bevy_rapier2d = "=0.21.0"
futures = "=0.3.34"
ldtk = { version = "=0.4.1", features = ["ldtk-v0-9-3"] }
ron = "=0.8.1"
serde = { version = "=1.0.229", features = ["derive"] }
serde_json = "=1.0.151"
tiled = "=0.16.0"
