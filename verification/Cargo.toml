[package]
name = "parquet_compression"
version = "0.1.0"
edition = "2021"
publish = false

[dependencies]
snap = "=1.1.2"
flate2 = "=1.1.10"
brotli = "=9.1.1"
lz4_flex = "=0.14.0"
zstd = { version = "=0.14.3", default-features = false, features = ["thin"] }
