[package]
name = "ebay_watcher"
version = "0.1.0"
edition = "2021"
publish = false

[dependencies]
base64 = "*"
chrono = "*"
dotenv = "*"
reqwest = { version = "*", default-features = false, features = ["rustls-tls", "json"] }
serde = { version = "*", features = ["derive"] }
serde_json = "*"
serenity = { version = "*", default-features = false, features = ["builder", "http", "model", "utils", "rustls_backend"] }
tokio = { version = "*", features = ["macros", "rt-multi-thread", "signal", "time"] }
