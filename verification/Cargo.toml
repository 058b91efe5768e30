[package]
name = "vbox_verified"
version = "0.1.0"
edition = "2021"
publish = false

[dependencies]
hex = "0.4"
flate2 = "1"
bincode = "1"
serde = { version = "1", features = ["derive"] }
parking_lot = "0.12"
log = "0.4"
thiserror = "1"
