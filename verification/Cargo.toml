[package]
name = "event_daemon"
version = "0.1.0"
edition = "2021"
publish = false

[dependencies]
axum = "0.7"
tokio = { version = "1", features = ["macros", "rt-multi-thread", "net", "time", "signal", "sync"] }
serde = { version = "1", features = ["derive"] }
nix = { version = "0.29", features = ["fs"] }
