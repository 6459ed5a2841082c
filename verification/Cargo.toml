[package]
name = "fbihtax"
version = "0.1.0"
edition = "2021"
publish = false

[dependencies]
clap = { version = "3", features = ["derive"] }
pdf_forms = "*"
reqwest = { version = "0.11", default-features = false, features = ["blocking"] }
rust_decimal = "1"
rust_decimal_macros = "1"
serde = { version = "1", features = ["derive"] }
serde_json = "1"
