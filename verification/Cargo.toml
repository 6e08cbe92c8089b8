[package]
name = "bevy_mtoon"
version = "0.1.0"
edition = "2021"
publish = false

[dependencies]
rustc_apfloat = "=0.1.3"
bevy = { version = "=0.11.3", default-features = false, features = ["bevy_asset"] }
