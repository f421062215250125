[package]
name = "abstract_server"
version = "0.1.0"
edition = "2021"
publish = false

[dependencies]
async-trait = "=0.1.92"
axum = "=0.8.9"
futures-core = "=0.3.34"
kstring = "=2.0.0"
liquid = "=0.26.11"
regex = "=1.13.1"
serde = { version = "=1.0.229", features = ["derive"] }
serde_json = "=1.0.151"
tokio = { version = "=1.53.2", features = ["rt"] }
ustr = { version = "=1.1.0", features = ["serde"] }
