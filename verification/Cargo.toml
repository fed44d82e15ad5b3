[package]
name = "openai_client"
version = "0.1.0"
edition = "2021"
publish = false

[dependencies]
awc = { version = "3", default-features = false, features = ["rustls"] }
serde = { version = "1", features = ["derive"] }
serde_json = "1"
thiserror = "1"
