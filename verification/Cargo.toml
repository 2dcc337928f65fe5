[package]
name = "fory_envelope"
version = "0.1.0"
edition = "2021"
publish = false

[dependencies]
fory = "0.17"
fory-core = "0.17"
