[package]
name = "genomeguesser"
version = "0.1.0"
edition = "2021"
publish = false

[dependencies]
clap = { version = "4", features = ["cargo"] }
colored = "2"
csv = "1"
rust-htslib = { version = "*", default-features = false }
