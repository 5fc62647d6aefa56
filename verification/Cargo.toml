[package]
name = "lint_lab"
version = "0.1.0"
edition = "2021"
publish = false

[dependencies]
anyhow = "*"
cargo-lock = "*"
cargo_metadata = "*"
clap = { version = "*", features = ["derive"] }
prometheus-client = "*"
serde = { version = "*", features = ["derive"] }
serde_json = "*"
strum = { version = "*", features = ["derive"] }
