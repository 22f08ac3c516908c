[package]
name = "embedding_server"
version = "0.1.0"
edition = "2021"
publish = false

[dependencies]
serde = { version = "1", features = ["derive"] }
serde_json = "1"
uuid = { version = "1", features = ["v4"] }
tokenizers = "*"
tokio = { version = "1", features = ["full"] }
hyper = { version = "0.14", features = ["full"] }
toml = "*"
ort = { version = "=2.0.0-rc.13", default-features = false, features = ["load-dynamic", "std"] }
ndarray = "*"
