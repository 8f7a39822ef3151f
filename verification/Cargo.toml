[package]
name = "dhref"
version = "0.2.0"
edition = "2021"
publish = false

[dependencies]
nipper = "*"
reqwest = { version = "*", default-features = false, features = ["blocking", "rustls-tls"] }
tokio = { version = "*", features = ["rt-multi-thread", "macros", "fs", "io-util"] }
futures = "*"
clap = "*"
