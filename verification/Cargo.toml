[package]
name = "qmk_xap"
version = "0.1.0"
edition = "2021"
publish = false

[dependencies]
rand = "0.8"
convert_case = "0.6"
flate2 = "1"
uuid = { version = "1", features = ["v4"] }
serde = { version = "1", features = ["derive"] }
serde_json = "1"
deser-hjson = "2"
serde_with = "3"
anyhow = "1"
thiserror = "1"
log = "0.4"
env_logger = "0.11"
hidapi = "2"
