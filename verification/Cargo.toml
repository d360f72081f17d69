[package]
name = "ot-in-rust"
version = "0.1.0"
edition = "2021"
publish = false

[dependencies]
chacha20poly1305 = "0.10.1"
generic-ec = { version = "0.5.0", features = ["all-curves"] }
hkdf = "0.13.0"
rand = { version = "0.8.5", features = ["std", "getrandom"] }
sha2 = "0.11.0"
