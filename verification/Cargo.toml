[package]
name = "decision_table"
version = "0.1.0"
edition = "2021"
publish = false

[dependencies]
actix-rt = "=2.15.0"
actix-web = { version = "=4.18.1", default-features = false }
env_logger = "=0.11.11"
log = "=0.4.34"
serde = "=1.0.229"
serde_derive = "=1.0.229"

[dev-dependencies]
serde_json = "=1.0.154"
