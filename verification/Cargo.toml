[package]
name = "base64_string_rs"
version = "0.1.0"
edition = "2021"
publish = false

[dependencies]
anyhow = "1"
base64 = "0.13"
num-bigint = "0.4"

[dev-dependencies]
quickcheck = { version = "1", default-features = false }
