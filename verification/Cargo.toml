[package]
name = "dstack"
version = "0.1.0"
edition = "2021"
publish = false

[dependencies]
x25519-dalek = { version = "2", features = ["static_secrets", "getrandom"] }
aes-gcm = "0.10"
sha2 = "0.10"
base64 = "0.22"
hex = "0.4"
serde = { version = "1", features = ["derive"] }
serde_json = "1"
anyhow = "1"
reqwest = { version = "0.12", default-features = false, features = ["json"] }
tokio = { version = "1", features = ["rt-multi-thread", "macros", "time"] }
warp = "0.3"
ed25519-dalek = "2"
stellar-strkey = "*"
stellar-xdr = "*"
urlencoding = "2"
