[package]
name = "poem_casbin_auth"
version = "0.1.0"
edition = "2021"
publish = false

[dependencies]
casbin = { version = "=2.20.0", features = ["cached"] }
poem = "=3.1.12"
tokio = { version = "=1.53.2", features = ["sync", "rt", "rt-multi-thread"] }
