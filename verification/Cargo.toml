[package]
name = "procks"
version = "0.1.0"
edition = "2021"
publish = false

[dependencies]
async-std = "1"
clap = { version = "4", features = ["derive"] }
futures = "0.3"
