[package]
name = "theseus"
version = "0.1.0"
edition = "2021"
publish = false

[dependencies]
regex = "=1.13.1"
sys-info = "=0.9.1"
thiserror = "=1.0.69"
serde_json = "=1.0.154"
futures = "=0.3.34"
tokio = { version = "=1.54.1", features = ["rt", "macros"] }
reqwest = { version = "=0.11.27", default-features = false }
sha1 = { version = "0.6", features = ["std"] }
