[package]
name = "pink-drink"
version = "0.1.0"
edition = "2021"
publish = false

[dependencies]
anyhow = "=1.0.104"
environmental = "=1.1.4"
hex = "=0.4.3"
ink = "=4.3.0"
log = "=0.4.34"
parity-scale-codec = "=3.7.5"
pink-extension = "=0.5.1"
sp-core = "=43.0.0"
sp-crypto-hashing = "=0.1.0"
tokio = { version = "=1.54.1", features = ["rt-multi-thread", "time", "sync", "macros"] }
