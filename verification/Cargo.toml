[package]
name = "tunnel_relay"
version = "0.1.0"
edition = "2021"
publish = false

[dependencies]
anyhow = "*"
argh = "*"
flume = "*"
futures = "*"
quinn = "*"
rustls-pemfile = "*"
rustls-pki-types = "*"
tokio = { version = "*", features = ["net", "rt-multi-thread", "macros", "time", "io-util"] }
tracing = "*"
