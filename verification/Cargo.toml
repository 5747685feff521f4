[package]
name = "epic_bevy_remote_reflection"
version = "0.1.0"
edition = "2021"
publish = false

[dependencies]
bevy_reflect = "0.14"
