[package]
name = "epoch_archive"
version = "0.1.0"
edition = "2021"
publish = false

[dependencies]
rmp-serde = "1"
serde = "1"
thiserror = "1"
zstd = "0.13"
