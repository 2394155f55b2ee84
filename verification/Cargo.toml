[package]
name = "simple_game"
version = "0.1.0"
edition = "2021"
publish = false

[dependencies]
clap = { version = "4", features = ["derive"] }
rand = "0.8"
ron = "0.8"
serde = { version = "1", features = ["derive"] }
