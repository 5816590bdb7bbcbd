[package]
name = "you_have_mail_common"
version = "0.1.0"
edition = "2021"
publish = false

[dependencies]
anyhow = "1"
base64 = "0.21"
chacha20poly1305 = "0.10"
chrono = "0.4"
crossbeam-channel = "0.5"
parking_lot = "0.12"
secrecy = "0.8"
serde = { version = "1", features = ["derive"] }
serde_json = "1"
serde_repr = "0.1"
thiserror = "1"
tracing = "0.1"
tracing-appender = "0.2"
tracing-subscriber = { version = "0.3", features = ["env-filter"] }
log4rs = "1"
proton-api-rs = "*"

[dev-dependencies]
temp-dir = "0.1"
