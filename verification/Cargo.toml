[package]
name = "arca"
version = "0.1.0"
edition = "2021"
publish = false

[dependencies]
argon2 = "=0.5.3"
chacha20poly1305 = "=0.10.1"
chrono = "=0.4.45"
keepass = { version = "=0.17.0", features = ["save_kdbx4"] }
rand = "=0.9.5"
serde = { version = "=1.0.229", features = ["derive"] }
serde_json = "=1.0.154"
thiserror = "=2.0.21"
uuid = { version = "=1.29.1", features = ["v4"] }
zeroize = { version = "=1.9.1", features = ["derive"] }

[dev-dependencies]
tempfile = "=3.27.0"
