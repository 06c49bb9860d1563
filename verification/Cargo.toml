[package]
name = "mulac"
version = "0.1.0"
edition = "2021"
publish = false

[dependencies]
uuid = { version = "1", features = ["v4", "v7", "serde"] }
chrono = { version = "0.4", features = ["serde"] }
serde = { version = "1", features = ["derive"] }
serde_json = "1"
thiserror = "2"
tokio = { version = "1", features = ["rt", "rt-multi-thread", "macros", "time", "sync"] }
tokio-util = "0.7"
futures-lite = "2"
lapin = "*"
tracing = "0.1"
anyhow = "1"
diesel = { version = "2", features = ["postgres", "r2d2", "chrono", "uuid", "serde_json"] }
