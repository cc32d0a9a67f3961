[package]
name = "chimera_agent"
version = "0.1.0"
edition = "2021"
publish = false

[dependencies]
sha2 = "0.10"
hex = "0.4"
subtle = "2"
chrono = { version = "0.4", default-features = false, features = ["std"] }
url = "2"
serde = { version = "1", features = ["derive"] }
serde_json = "1"
