[package]
name = "firm-wallet-gateway"
version = "0.1.0"
edition = "2021"
publish = false

[dependencies]
dotenv = "0.15"
hmac = "0.12"
hyper = { version = "0.14", features = ["server", "http1", "tcp"] }
serde = { version = "1", features = ["derive"] }
serde_json = "1"
sha2 = "0.10"
subtle = "2"
thiserror = "1"
tokio = { version = "1", features = ["macros", "rt-multi-thread"] }
tracing = "0.1"
tracing-subscriber = "0.3"
