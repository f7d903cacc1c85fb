[package]
name = "rcc"
version = "0.1.0"
edition = "2021"
publish = false

[dependencies]
bumpalo = { version = "=3.20.3", features = ["collections"] }
slotmap = "1"
bimap = "0.6"

[dev-dependencies]
bitflags = "=2.13.2"
strum_macros = "=0.26.4"
