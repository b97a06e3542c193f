[package]
name = "edge_front"
version = "0.1.0"
edition = "2021"
publish = false

[dependencies]
lru = "0.12"
rustls-pemfile = "2"
tokio = { version = "1", features = ["rt-multi-thread", "net", "sync", "time", "macros"] }
hyper = { version = "0.14", features = ["server", "http1", "http2"] }
rustls = { version = "0.23", default-features = false, features = ["ring", "std"] }
tokio-rustls = { version = "0.26", default-features = false, features = ["ring"] }
