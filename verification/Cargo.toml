[package]
name = "uqdev"
version = "0.1.0"
edition = "2021"
publish = false

[dependencies]
anyhow = "1"
clap = { version = "4", features = ["cargo"] }
nix = { version = "0.27", features = ["fs", "process", "term"] }
serde = { version = "1", features = ["derive"] }
serde_json = "1"
thiserror = "1"
tokio = { version = "1", features = ["full"] }
toml = "0.8"
walkdir = "2"
zip = { version = "0.6", default-features = false }
