[package]
name = "presence_core"
version = "0.1.0"
edition = "2021"
publish = false

[dependencies]
hdi = "=0.8.0"
hdk = "=0.7.0"
holo_hash = { version = "=0.7.0", features = ["hashing"] }
serde = "=1.0.228"
