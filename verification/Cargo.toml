[package]
name = "pg_search"
version = "0.1.0"
edition = "2021"
publish = false

[dependencies]
serde = { version = "1", features = ["derive"] }
serde_json = "1"
thiserror = "1"
fs2 = "0.4"
walkdir = "2"
derive_more = "0.99"

[dev-dependencies]
tempfile = "3"
fs-err = "2"
crossbeam-utils = "0.8"
