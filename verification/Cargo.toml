[package]
name = "monoio_codec"
version = "0.3.4"
edition = "2021"
publish = false

[dependencies]
bytes = "1"
monoio = "0.2"
