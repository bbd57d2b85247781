[package]
name = "os_layer"
version = "0.1.0"
edition = "2021"
publish = false

[dependencies]
dirs = "5"
open = "5"
serde = { version = "1", features = ["derive"] }
thiserror = "1"
