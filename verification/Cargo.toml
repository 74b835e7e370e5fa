[package]
name = "voprf"
version = "0.1.0"
edition = "2021"
publish = false

[dependencies]
curve25519-dalek = "4"
p256 = { version = "0.13", default-features = false, features = ["arithmetic", "hash2curve", "alloc"] }
sha2 = "0.10"
subtle = "2"
rand_core = { version = "0.6", features = ["getrandom"] }
