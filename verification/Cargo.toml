[package]
name = "pulsar_topic_delete"
version = "0.1.0"
edition = "2021"
publish = false

[dependencies]
env_logger = "*"
log = "*"
reqwest = { version = "*", default-features = false, features = ["json", "rustls-tls"] }
serde = { version = "*", features = ["derive"] }
serde_json = "*"
tokio = { version = "*", features = ["macros", "rt-multi-thread"] }
