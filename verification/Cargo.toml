[package]
name = "tls_tunnel"
version = "0.1.0"
edition = "2021"
publish = false

[dependencies]
futures = "0.3"
tokio = { version = "1", features = ["io-util", "macros", "net", "rt-multi-thread"] }
tokio-rustls = "0.22"
url = "2"
webpki = "0.21"
webpki-roots = "0.21"
