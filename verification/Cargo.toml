[package]
name = "futures-backoff"
version = "0.1.0"
edition = "2021"
publish = false

[dependencies]
futures = "0.3"
futures-timer = "3"
rand = "0.8"
