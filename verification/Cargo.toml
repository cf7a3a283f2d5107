[package]
name = "diccionarios"
version = "0.1.0"
edition = "2021"
publish = false

[dependencies]
chardetng = "=1.0.0"
encoding_rs = "=0.8.44"
polars = { version = "=0.55.2", default-features = false, features = ["csv", "json", "dtype-date", "temporal", "fmt"] }
serde = { version = "=1.0.229", features = ["derive"] }
serde_json = "=1.0.154"
reqwest = { version = "=0.13.5", features = ["json", "gzip", "brotli", "deflate"] }
futures = "=0.3.34"
dirs = "=7.0.0"
