[package]
name = "unreal_asset"
version = "0.1.0"
edition = "2021"
publish = false

[dependencies]
byteorder = "1"
aes = "0.8"
thiserror = "1"
