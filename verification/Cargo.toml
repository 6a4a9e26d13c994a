[package]
name = "bevy_discord_game_sdk"
version = "0.1.0"
edition = "2021"
publish = false

[dependencies]
bevy_app = "=0.5.0"
bevy_ecs = "=0.5.0"
bevy_log = "=0.5.0"
discord_game_sdk = "=1.0.1"
tracing-attributes = "=0.1.23"
