[package]
name = "hyper_trust_dns"
version = "0.1.0"
edition = "2021"
publish = false

[dependencies]
hyper = { version = "0.14", default-features = false, features = ["client", "http1", "http2", "tcp"] }
hyper-rustls = { version = "0.23", default-features = false, features = ["native-tokio", "webpki-tokio", "http1", "http2", "tls12"] }
hyper-tls = { version = "0.5" }
trust-dns-resolver = { version = "0.22", features = ["dns-over-rustls", "dns-over-https-rustls"] }

[dev-dependencies]
tokio = { version = "1", features = ["rt", "net", "time"] }
