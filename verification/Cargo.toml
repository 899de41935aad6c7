[package]
name = "cfscan"
version = "0.1.0"
edition = "2021"
publish = false

[dependencies]
clap = { version = "4", features = ["cargo"] }
eyre = "0.6"
rocksdb = "*"
