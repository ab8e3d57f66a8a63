[package]
name = "superstream"
version = "0.2.0"
edition = "2021"
publish = false

[dependencies]
anchor-lang = "=0.25.0"
anchor-spl = { version = "=0.25.0", default-features = false, features = ["token"] }
