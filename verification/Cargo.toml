[package]
name = "itchy"
version = "0.1.0"
edition = "2021"
publish = false

[dependencies]
rust_decimal = "*"
flate2 = "*"
