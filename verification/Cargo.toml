[package]
name = "sshnetcomp"
version = "0.1.0"
edition = "2021"
publish = false

[dependencies]
anyhow = "1"
eframe = { version = "0.29", default-features = false, features = ["glow", "default_fonts", "x11"] }
env_logger = { version = "0.11", default-features = false }
flate2 = "1"
rfd = "0.15"
serde = { version = "1", features = ["derive"] }
ssh = "0.1"
tar = "0.4"
tokio = { version = "1", features = ["rt-multi-thread", "macros", "sync", "fs"] }
toml = "0.8"
