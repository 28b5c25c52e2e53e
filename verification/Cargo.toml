[package]
name = "spe"
version = "0.1.0"
edition = "2021"
publish = false

[dependencies]
minicbor = { version = "*", features = ["alloc"] }
sha2 = "*"
p256 = { version = "*", features = ["ecdsa"] }
bytemuck = "*"
