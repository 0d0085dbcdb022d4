[package]
name = "mangalib"
version = "0.1.0"
edition = "2021"
publish = false

[dependencies]
axum = "*"
clap = "*"
futures = "*"
reqwest = { version = "*", default-features = false, features = ["json"] }
serde = { version = "*", features = ["derive"] }
serde_json = "*"
thiserror = "*"
tokio = { version = "*", features = ["full"] }
tracing = "*"
