[package]
name = "lazyclash"
version = "0.1.0"
edition = "2021"
publish = false

[dependencies]
percent-encoding = "*"
uuid = { version = "*", features = ["v4"] }
reqwest = { version = "*", features = ["rustls-tls"] }
tokio = { version = "*", features = ["macros", "rt-multi-thread", "fs", "time"] }
sqlx = { version = "*", features = ["runtime-tokio", "sqlite"] }
crossterm = "*"
ratatui = "*"
chrono = "*"
serde = { version = "*", features = ["derive"] }
serde_json = "*"
