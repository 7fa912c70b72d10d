[package]
name = "filey"
version = "0.1.0"
edition = "2021"
publish = false

[dependencies]
anyhow = "1"
path-absolutize = "3"
serde = { version = "1", features = ["derive"] }
thiserror = "1"
