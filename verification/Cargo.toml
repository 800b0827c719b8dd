[package]
name = "i2p_client"
version = "0.4.0"
edition = "2021"
publish = false

[dependencies]
emissary-core = "=0.4.0"
emissary-util = "=0.4.0"
log = "=0.4.35"
tokio = { version = "=1.54.1", features = ["full"] }
