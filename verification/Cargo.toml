[package]
name = "bevy_compose"
version = "0.1.0"
edition = "2021"
publish = false

[dependencies]
bevy = { version = "0.13.2", default-features = false }
