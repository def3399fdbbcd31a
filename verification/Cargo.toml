[package]
name = "cry"
version = "0.6.0"
edition = "2021"
publish = false

[dependencies]
argon2 = "0.5"
clap = { version = "4", features = ["derive"] }
ed25519-dalek = { version = "2", features = ["rand_core"] }
hex = "0.4"
rand = "0.8"
rpassword = "7"
rsa = "0.9"
sha2 = "0.10"
ssh-key = { version = "0.6", features = ["ed25519", "encryption", "std"] }
zeroize = "1"
