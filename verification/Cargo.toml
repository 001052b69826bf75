[package]
name = "collect"
version = "1.1.0"
edition = "2021"
publish = false

[dependencies]
anyhow = "1"
clap = { version = "4", features = ["derive"] }
ignore = "0.4"
memchr = "2"
regex = "1"
