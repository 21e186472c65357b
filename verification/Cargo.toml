[package]
name = "spa"
version = "0.1.0"
edition = "2021"
publish = false

[dependencies]
chrono = { version = "=0.4.45", default-features = false, features = ["clock"] }
crossbeam-channel = "0.5"
parking_lot = "0.12"
