[package]
name = "file_convert"
version = "0.1.0"
edition = "2021"
publish = false

[dependencies]
rand = "0.8"
axum = { version = "0.7", features = ["multipart"] }
tokio = { version = "1", features = ["full"] }
serde = { version = "1", features = ["derive"] }
clap = { version = "4", features = ["cargo"] }
dotenvy = "0.15"
tower-http = { version = "0.5", features = ["fs"] }
