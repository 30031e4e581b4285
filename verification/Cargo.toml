[package]
name = "bank_ledger"
version = "0.1.0"
edition = "2021"
publish = false

[dependencies]
actix = "=0.13.5"
actix-web = "=4.18.1"
chrono = "=0.4.45"
edn-derive = "=0.5.0"
edn-rs = "=0.16.14"
transistor = "=1.3.11"
uuid = { version = "=1.29.0", features = ["v4"] }
