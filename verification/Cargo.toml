[package]
name = "aga8_api"
version = "0.1.0"
edition = "2021"
publish = false

[dependencies]
aga8 = "=0.5.1"
poem = "=3.1.12"
poem-openapi = { version = "=5.1.16", features = ["swagger-ui"] }
serde = { version = "=1.0.229", features = ["derive"] }
serde_json = "=1.0.154"
thiserror = "=2.0.21"
tokio = { version = "=1.54.1", features = ["macros", "rt-multi-thread"] }
