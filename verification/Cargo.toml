[package]
name = "abistr"
version = "0.2.0"
edition = "2021"
publish = false

[dependencies]
bytemuck = { version = "1", features = ["must_cast"] }
widestring = "1"
