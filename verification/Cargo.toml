[package]
name = "gold_miner"
version = "0.1.0"
edition = "2021"
publish = false

[dependencies]
rand = "0.9"
serde = { version = "1", features = ["derive"] }
bevy = { version = "0.17", default-features = false, features = ["std", "bevy_state", "bevy_asset", "bevy_sprite", "bevy_text", "bevy_ui", "bevy_gizmos", "bevy_audio", "bevy_picking", "bevy_dev_tools"] }
bevy_common_assets = { version = "0.14", features = ["yaml"] }
