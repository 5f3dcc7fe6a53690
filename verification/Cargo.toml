[package]
name = "signature_checker"
version = "0.1.0"
edition = "2021"
publish = false

[dependencies]
futures = "*"
tokio = { version = "*", default-features = false, features = ["rt-multi-thread"] }
web3 = { version = "*", default-features = false, features = ["http", "signing"] }
