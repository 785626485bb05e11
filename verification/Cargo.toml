[package]
name = "wasi_http_guest"
version = "0.1.0"
edition = "2021"
publish = false

[dependencies]
anyhow = "1"
bytes = "1"
http = "1"
http-body = "1"
tower-service = "0.3"
