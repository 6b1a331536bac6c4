[package]
name = "kem_combiners"
version = "0.1.0"
edition = "2021"
publish = false

[dependencies]
sha3 = "=0.10.9"
rand_core = "=0.6.4"
x25519-dalek = { version = "=2.0.1", features = ["static_secrets"] }
ml-kem = "=0.2.3"
hybrid-array = { version = "=0.2.3", features = ["extra-sizes"] }
classic-mceliece-rust = { version = "=3.1.0", features = ["mceliece348864f"] }

[dev-dependencies]
rand = "=0.8.8"
