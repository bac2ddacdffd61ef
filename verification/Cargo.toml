[package]
name = "tsgo-client"
version = "0.1.0"
edition = "2021"
publish = false

[dependencies]
cbor4ii = { version = "=1.2.4", features = ["use_std"] }
thiserror = "=2.0.21"
