[package]
name = "ivcnotes"
version = "0.1.0"
edition = "2021"
publish = false

[dependencies]
ark-crypto-primitives = { version = "0.4", features = ["sponge"] }
ark-ff = "0.4"
ark-ec = "0.4"
ark-bn254 = "0.4"
ark-ed-on-bn254 = "0.4"
ark-std = "0.4"
rand_core = { version = "0.6", features = ["getrandom"] }
sha2 = "0.10"
