[package]
name = "zephyr_mcumgr"
version = "0.1.0"
edition = "2021"
publish = false

[dependencies]
base64 = "0.22"
crc = "3"
ciborium = "0.2"
rand = "0.9"
hex = "0.4"
serde = { version = "1", features = ["derive"] }
serde_bytes = "0.11"
serde_repr = "0.1"
serde_json = "1"
thiserror = "2"
miette = "7"
clap = { version = "4", features = ["derive"] }
serialport = { version = "4", default-features = false }
env_logger = "0.11"
log = "0.4"
strum = { version = "0.27", features = ["derive"] }
chrono = "0.4"
