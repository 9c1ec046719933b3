[package]
name = "flower"
version = "0.1.0"
edition = "2021"
publish = false

[dependencies]
rustls-pemfile = "1"
rustls = "0.20"
quinn = "0.8"
quinn-proto = "0.8"
tokio = { version = "1", features = ["io-util", "net", "sync", "rt", "time", "macros"] }
tokio-rustls = "0.23"
webpki-roots = "0.22"
futures = "0.3"
async-trait = "0.1"
log = "0.4"
