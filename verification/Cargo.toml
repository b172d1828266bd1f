[package]
name = "sslrelay"
version = "0.1.0"
edition = "2021"
publish = false

[dependencies]
httparse = "*"
chunked_transfer = "*"
flate2 = "*"
openssl = "*"
