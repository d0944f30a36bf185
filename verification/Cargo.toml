[package]
name = "omnipair-amm-sdk"
version = "0.1.0"
edition = "2021"
publish = false

[dependencies]
anchor-lang = "=1.2.2"
anyhow = "1"
rust_decimal = "=1.43.0"
