[package]
name = "handler"
version = "0.1.0"
edition = "2021"
publish = false

[dependencies]
serde_json = "1"
warp = { version = "0.3", default-features = false }

[dev-dependencies]
tokio = { version = "1", features = ["rt"] }
