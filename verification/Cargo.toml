[package]
name = "silizium"
version = "0.1.0"
edition = "2021"
publish = false

[dependencies]
serde = { version = "=1.0.229", features = ["derive"] }
macaddr = { version = "=1.0.1", features = ["serde_std"] }
