[package]
name = "random_manager"
version = "0.1.0"
edition = "2021"
publish = false

[dependencies]
base64 = "*"
bs58 = "*"
command-manager = "*"
openssl = "*"
primitive-types = "*"
rand = "0.8"
ring = "*"
serde = { version = "1", features = ["derive"] }
