[package]
name = "manta_signer"
version = "0.1.0"
edition = "2021"
publish = false

[dependencies]
async-std = "1"
bs58 = "0.4"
derivative = "2"
http-types = { version = "2", default-features = false }
parity-scale-codec = { version = "2", features = ["derive"] }
rand = "0.8"
rand_chacha = "0.3"
secrecy = "0.8"
serde = { version = "1", features = ["derive"] }
tide = { version = "0.16", default-features = false, features = ["h1-server"] }
