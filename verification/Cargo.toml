[package]
name = "symphonia_adapters"
version = "0.1.0"
edition = "2021"
publish = false

[dependencies]
fdk-aac = "=0.8.0"
opusic-sys = { version = "=0.7.5", default-features = false }
symphonia-core = "=0.5.5"
