[package]
name = "gufo_http"
version = "0.1.0"
edition = "2021"
publish = false

[dependencies]
reqwest = { version = "*", default-features = false, features = ["blocking", "gzip", "deflate", "brotli", "zstd", "rustls-tls"] }
bytes = "*"
