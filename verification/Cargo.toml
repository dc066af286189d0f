[package]
name = "worker_bundler"
version = "0.1.0"
edition = "2021"
publish = false

[dependencies]
dashmap = "*"
futures = "*"
