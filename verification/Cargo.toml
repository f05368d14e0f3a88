[package]
name = "stickymd"
version = "0.1.0"
edition = "2021"
publish = false

[dependencies]
unicode-segmentation = "1"
sha2 = "0.10"
serde = { version = "1", features = ["derive"] }
toml = "0.8"
thiserror = "2"
