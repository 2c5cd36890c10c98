[package]
name = "mcumgr_toolkit"
version = "0.1.0"
edition = "2021"
publish = false

[dependencies]
chrono = "0.4"
ciborium = "0.2"
clap = { version = "4", features = ["derive"] }
hex = "0.4"
indicatif = "0.18"
log = "0.4"
miette = "7"
pyo3 = "0.27"
pyo3-stub-gen = "*"
rand = "0.9"
regex = "1"
serde = { version = "1", features = ["derive"] }
serde_bytes = "0.11"
serde_json = "1"
serde_repr = "0.1"
serialport = { version = "4", default-features = false, features = ["usbportinfo-interface"] }
sha2 = "0.10"
strum = { version = "0.27", features = ["derive"] }
thiserror = "2"
