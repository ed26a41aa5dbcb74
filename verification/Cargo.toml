[package]
name = "phototransfer"
version = "0.1.0"
edition = "2021"
publish = false

[dependencies]
chrono = "*"
sha2 = "*"
hex = "*"
dirs = "*"
open = "*"
rusb = "*"
serde = { version = "*", features = ["derive"] }
