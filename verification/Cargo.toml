[package]
name = "indexer_stream"
version = "0.1.0"
edition = "2021"
publish = false

[dependencies]
prost = "0.13"
tokio = { version = "1", features = ["rt"] }
tonic = { version = "0.12", features = ["gzip", "zstd"] }
