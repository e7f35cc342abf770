[package]
name = "xcodebind_gen"
version = "0.1.0"
edition = "2021"
publish = false

[dependencies]
crc = "3"
clap = { version = "3", features = ["cargo"] }
colored = "2"
