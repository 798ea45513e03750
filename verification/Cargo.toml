[package]
name = "gtin_validate"
version = "1.3.0"
edition = "2021"
publish = false

[dependencies]
packed_simd = "0.3"

[dev-dependencies]
proptest = { version = "1", default-features = false, features = ["std"] }
