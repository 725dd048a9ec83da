[package]
name = "star_escrow"
version = "0.1.0"
edition = "2021"
publish = false

[dependencies]
anyhow = "1"
chrono = "0.4"
clap = { version = "4", features = ["derive", "env"] }
serde_json = "1"
tabled = "*"
thiserror = "*"
tracing = "0.1"
