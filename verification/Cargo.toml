[package]
name = "failure_boundary"
version = "0.1.0"
edition = "2021"
publish = false

[dependencies]
neon = { version = "=0.10.1", default-features = false, features = ["napi-6", "channel-api", "promise-api", "task-api"] }
