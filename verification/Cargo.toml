[package]
name = "pqvault"
version = "0.1.0"
edition = "2021"
publish = false

[dependencies]
anyhow = "=1.0.104"
argon2 = "=0.6.0"
base64 = "=0.23.1"
chacha20poly1305 = "=0.11.0"
crossterm = "=0.29.0"
dirs = "=7.0.0"
hkdf = "=0.13.0"
libc = "=0.2.191"
ml-dsa = "=0.1.2"
ml-kem = { version = "=0.3.4", features = ["getrandom"] }
rand = "=0.8.8"
ratatui = "=0.30.2"
serde = { version = "=1.0.229", features = ["derive"] }
serde_json = "=1.0.154"
sha2 = "=0.11.1"
zeroize = "=1.9.1"
