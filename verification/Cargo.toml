[package]
name = "receipts"
version = "0.1.0"
edition = "2021"
publish = false

[dependencies]
sha256 = "*"
chrono = "*"
