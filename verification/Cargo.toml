[package]
name = "conan"
version = "0.1.0"
edition = "2021"
publish = false

[dependencies]
chacha20poly1305 = "=0.10.1"
hkdf = "=0.12.4"
sha2 = "=0.10.9"
x25519-dalek = { version = "=2.0.1", features = ["static_secrets"] }
ed25519-dalek = { version = "=2.2.0", features = ["rand_core"] }
rand_core = { version = "=0.6.4", features = ["getrandom"] }
bs58 = "=0.5.1"
hex = "=0.4.3"
chrono = "=0.4.45"
serde = { version = "=1.0.229", features = ["derive"] }
bincode = { version = "=2.0.1", features = ["serde"] }
thiserror = "=2.0.21"
rand = "0.9"
crossterm = "0.28"
