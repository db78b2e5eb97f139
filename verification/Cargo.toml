[package]
name = "pvz_core"
version = "0.1.0"
edition = "2021"
publish = false

[dependencies]
rand = "0.8"
bevy = { version = "0.14", default-features = false, features = ["bevy_state"] }
bevy_spatial = "0.9"
serde = { version = "1", features = ["derive"] }
serde-xml-rs = "0.6"
