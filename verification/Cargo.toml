[package]
name = "packet_pipeline"
version = "0.1.0"
edition = "2021"
publish = false

[dependencies]
aesni = { version = "=0.10.0", default-features = false, features = ["nocheck"] }
cfb8 = "=0.6.0"
sha2 = "=0.11.0"
libdeflater = "=1.26.1"
