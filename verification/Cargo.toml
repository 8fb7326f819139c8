[package]
name = "surreal_error_parser"
version = "0.1.0"
edition = "2021"
publish = false

[dependencies]
once_cell = "*"
regex = "*"
rust_decimal = "*"
serde = { version = "*", features = ["derive"] }
