[package]
name = "dock"
version = "0.1.0"
edition = "2021"
publish = false

[dependencies]
ratatui = { version = "0.29", default-features = false }
serde = { version = "1", features = ["derive"] }
schemars = "1"
