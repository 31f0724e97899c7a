[package]
name = "regexp_extract"
version = "0.1.0"
edition = "2021"
publish = false

[dependencies]
datafusion = { version = "44", default-features = false }
regex = "1"
