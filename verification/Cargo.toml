[package]
name = "wasm4"
version = "0.1.0"
edition = "2021"
publish = false

[dependencies]
bitflags = "1.3"
modular-bitfield = "0.11"
