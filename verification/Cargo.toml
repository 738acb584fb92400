[package]
name = "passenger_rs"
version = "0.1.0"
edition = "2021"
publish = false

[dependencies]
serde_json = "*"
chrono = "*"
serde = { version = "*", features = ["derive"] }
axum = "*"
tokio = { version = "*", features = ["rt-multi-thread", "macros", "net", "time", "io-util"] }
reqwest = { version = "*", default-features = false, features = ["json", "stream"] }
futures-util = "*"
toml = "*"
