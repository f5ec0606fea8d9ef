[package]
name = "hyprswitch"
version = "0.1.0"
edition = "2021"
publish = false

[dependencies]
anyhow = "*"
clap = { version = "*", features = ["derive"] }
hyprland = "*"
serde = { version = "*", features = ["derive"] }
tracing = "*"
