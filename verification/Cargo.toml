[package]
name = "miimic"
version = "0.1.0"
edition = "2021"
publish = false

[dependencies]
base64 = "0.22"
hex = "0.4"
sha2 = "0.10"
flate2 = "1"
clap = { version = "4", features = ["derive"] }
