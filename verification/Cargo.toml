[package]
name = "asio"
version = "0.1.0"
edition = "2021"
publish = false

[dependencies]
mio = { version = "=1.2.4", features = ["net", "os-poll"] }
