[package]
name = "oath_codec"
version = "0.1.0"
edition = "2021"
publish = false

[dependencies]
iso7816 = "*"

[dev-dependencies]
flexiber = "*"
