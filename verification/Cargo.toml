[package]
name = "pty_session"
version = "0.1.0"
edition = "2021"
publish = false

[dependencies]
chrono = "0.4"
nix = { version = "0.27", features = ["fs", "process", "signal", "term"] }
tokio = { version = "1", features = ["full"] }
axum = { version = "0.7", features = ["ws"] }
