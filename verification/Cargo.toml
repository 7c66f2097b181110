[package]
name = "apro_svm"
version = "0.1.0"
edition = "2021"
publish = false

[dependencies]
anchor-lang = "=0.31.2"
ethabi = "=18.0.0"
hex = "=0.4.3"
sha3 = "=0.10.9"
sha2 = "=0.10.9"

[dev-dependencies]
libsecp256k1 = "=0.7.2"
