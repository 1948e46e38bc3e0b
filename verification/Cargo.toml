[package]
name = "tls_stream"
version = "0.1.0"
edition = "2021"
publish = false

[dependencies]
rustls = { version = "*", default-features = false, features = ["ring", "std", "tls12"] }
tokio = { version = "*", features = ["io-util"] }
