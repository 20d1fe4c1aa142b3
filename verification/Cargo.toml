[package]
name = "bevy_pmx"
version = "0.1.0"
edition = "2021"
publish = false

[dependencies]
encoding_rs = "=0.8.44"
zip = { version = "=9.2.2", default-features = false, features = ["deflate"] }
bevy = { version = "=0.18.1", default-features = false, features = ["bevy_asset", "bevy_image", "bevy_mesh", "bevy_log", "png", "bmp", "tga"] }
