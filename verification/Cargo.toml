[package]
name = "xero_rs_async"
version = "0.1.0"
edition = "2021"
publish = false

[dependencies]
chrono = { version = "0.4", features = ["serde"] }
dashmap = "6"
dotenvy = "0.15"
log = "0.4"
reqwest = { version = "0.12", default-features = false, features = ["json", "multipart", "rustls-tls"] }
serde = { version = "1", features = ["derive"] }
serde_json = "1"
thiserror = "1"
tiny_http = "0.12"
tokio = { version = "1", features = ["fs", "macros", "rt-multi-thread", "sync", "time"] }
url = "2"
uuid = { version = "1", features = ["serde", "v4"] }
webbrowser = "1"
