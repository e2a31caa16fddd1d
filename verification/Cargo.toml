[package]
name = "ghostd"
version = "0.1.0"
edition = "2021"
publish = false

[dependencies]
bytes = "1"
http = "0.2"
httparse = "1"
hyper = { version = "0.14", features = ["server", "http1", "tcp"] }
tokio = { version = "1", features = ["rt", "macros", "sync", "time"] }
warp = { version = "0.3", default-features = false }
