[package]
name = "gremlh"
version = "0.1.0"
edition = "2021"
publish = false

[dependencies]
anyhow = "1"
clap = { version = "4", features = ["derive"] }
colored = "*"
ignore = "0.4"
tempfile = "3"
