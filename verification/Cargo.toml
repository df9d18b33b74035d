[package]
name = "rustfight"
version = "0.1.0"
edition = "2021"
publish = false

[dependencies]
macroquad = "*"
serde = { version = "*", features = ["derive"] }
serde_yaml = "*"
spin_sleep = "*"
