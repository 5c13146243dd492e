[package]
name = "src4392"
version = "0.1.0"
edition = "2021"
publish = false

[dependencies]
embedded-hal = "0.2"

[dev-dependencies]
packed_struct = "0.10"
