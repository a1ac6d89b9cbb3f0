[package]
name = "middleware-wrapper-atrust"
version = "0.1.0"
edition = "2021"
publish = false

[dependencies]
base64 = "=0.13.1"
chrono = { version = "=0.4.45", features = ["serde"] }
fake = "=2.10.0"
flexi_logger = "=0.31.10"
hex = "=0.4.3"
http = "=0.2.12"
libc = "0.2"
log = "0.4"
once_cell = "1"
rand = "0.8"
reqwest = { version = "0.11", features = ["blocking", "json"] }
serde = { version = "1", features = ["derive"] }
serde_json = "1"
serde_repr = "0.1"
sha256 = "=1.6.0"
thiserror = "1"
tini = "=1.3.0"
uuid = { version = "=1.29.0", features = ["v5", "serde"] }
