[package]
name = "sctp-rs"
version = "0.3.1"
edition = "2021"
publish = false

[dependencies]
libc = "0.2"
log = "0.4"
os_socketaddr = "0.2"
tokio = { version = "1", features = ["net"] }
