[package]
name = "video_compressor"
version = "0.1.0"
edition = "2021"
publish = false

[dependencies]
serde_json = "1"
serde = { version = "1", features = ["derive"] }
iced = { version = "0.12", default-features = false, features = ["tokio", "advanced"] }
tokio = { version = "1", features = ["rt"] }
which = "6"
dirs = "5"
zip = { version = "0.6", default-features = false, features = ["deflate"] }
reqwest = { version = "0.12", default-features = false, features = ["blocking", "rustls-tls"] }
