[package]
name = "bank_statement_importer"
version = "0.1.0"
edition = "2021"
publish = false

[dependencies]
chrono = { version = "0.4", default-features = false, features = ["std"] }
csv = "1"
dirs = "2"
hex = "0.4"
linked-hash-map = "0.5"
rust_decimal = { version = "1", default-features = false, features = ["std"] }
sha2 = "0.8"
yaml-rust = "0.4"
