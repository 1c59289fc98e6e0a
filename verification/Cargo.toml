[package]
name = "ssmanager"
version = "0.1.0"
edition = "2021"
publish = false

[dependencies]
clap = "=4.6.7"
futures = "=0.3.34"
log = "=0.4.35"
shadowsocks-service = { version = "=1.25.0", default-features = false, features = ["server", "manager", "aead-cipher", "aead-cipher-2022", "hickory-dns"] }
tokio = { version = "=1.54.1", features = ["rt", "rt-multi-thread", "macros"] }
