[package]
name = "rusemi"
version = "0.1.0"
edition = "2021"
publish = false

[dependencies]
chrono = { version = "=0.4.45", default-features = false, features = ["clock"] }
coremidi = "=0.6.0"
serialport = { version = "=4.10.1", default-features = false }
