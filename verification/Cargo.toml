[package]
name = "brauanlage"
version = "0.1.0"
edition = "2021"
publish = false

[dependencies]
futures-core = "0.3"
prost = "0.12"
redis = "*"
rppal = "*"
serde = { version = "1", features = ["derive"] }
serde_yaml = "*"
tokio = { version = "1", features = ["macros", "rt-multi-thread", "sync", "time"] }
tokio-stream = { version = "0.1", features = ["sync"] }
tonic = "0.10"
