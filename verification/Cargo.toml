[package]
name = "desktop_core"
version = "0.1.0"
edition = "2021"
publish = false

[dependencies]
ssh-key = { version = "0.6", features = ["ed25519", "encryption", "rsa"] }
rand_chacha = "0.3"
sha2 = "0.10"
base64 = "0.22"
tokio = { version = "1", features = ["rt", "rt-multi-thread", "sync", "net", "io-util", "time", "macros", "io-std"] }
tokio-util = { version = "0.7", features = ["codec"] }
tokio-stream = { version = "0.1", features = ["net"] }
futures = "0.3"
interprocess = { version = "2", features = ["tokio"] }
homedir = "0.3"
dirs = "5"
log = "0.4"
simplelog = "0.12"
anyhow = "1"
