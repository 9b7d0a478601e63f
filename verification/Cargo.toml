[package]
name = "chromex_native"
version = "0.1.0"
edition = "2021"
publish = false

[dependencies]
serde_json = { version = "1", features = ["arbitrary_precision"] }
uuid = "1"
tokio = { version = "1", features = ["rt-multi-thread"] }
