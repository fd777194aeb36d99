[package]
name = "gatt"
version = "0.1.0"
edition = "2021"
publish = false

[dependencies]
att = "=0.1.2"
bytes = "*"
log = "*"
thiserror = "*"
tokio = { version = "*", features = ["sync"] }
