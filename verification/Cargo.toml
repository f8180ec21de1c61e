[package]
name = "qcryptool"
version = "0.1.0"
edition = "2021"
publish = false

[dependencies]
qcrypto = "*"
clap = { version = "4", features = ["derive"] }
indicatif = "*"
rayon = "1"
serde = { version = "1", features = ["derive"] }
serde_json = "1"

[dev-dependencies]
tempfile = "3"
