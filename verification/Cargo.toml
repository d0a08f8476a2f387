[package]
name = "defi_adapters"
version = "0.1.0"
edition = "2021"
publish = false

[dependencies]
anchor-lang = "0.29"
anchor-spl = { version = "0.29", default-features = false, features = ["token"] }
