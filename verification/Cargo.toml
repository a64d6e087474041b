[package]
name = "flowfull"
version = "0.1.0"
edition = "2021"
publish = false

[dependencies]
reqwest = { version = "0.12", default-features = false, features = ["json", "multipart", "rustls-tls"] }
tokio = { version = "1", features = ["fs", "sync", "time"] }
serde = { version = "1", features = ["derive"] }
serde_json = "1"
thiserror = "2"
url = "2"
chrono = { version = "0.4", default-features = false, features = ["serde", "clock", "std"] }
mime_guess = "2"
async-trait = "0.1"
axum = { version = "0.8", default-features = false, features = ["tokio", "http1"] }
