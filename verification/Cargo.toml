[package]
name = "zcash_note_encryption"
version = "0.1.0"
edition = "2021"
publish = false

[dependencies]
chacha20 = "0.9"
chacha20poly1305 = "0.10"
cipher = "0.4"
rand_core = "0.6"
subtle = "2"
