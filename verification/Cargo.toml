[package]
name = "sage"
version = "0.1.0"
edition = "2021"
publish = false

[dependencies]
aes-gcm = "=0.10.3"
anchor-lang = "*"
base64 = "=0.22.1"
chrono = { version = "=0.4.45", features = ["serde"] }
ed25519-dalek = { version = "=2.2.0", features = ["rand_core"] }
hkdf = "=0.12.4"
rand = "=0.8.8"
reqwest = { version = "=0.11.27", default-features = false, features = ["json"] }
serde = { version = "=1.0.229", features = ["derive"] }
serde_json = "=1.0.154"
sha2 = "=0.10.9"
thiserror = "=1.0.69"
x25519-dalek = { version = "=2.0.1", features = ["static_secrets"] }
