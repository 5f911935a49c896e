[package]
name = "filament"
version = "0.1.0"
edition = "2021"
publish = false

[dependencies]
anyhow = "=1.0.104"
base64 = "=0.22.1"
bytes = "=1.12.1"
crossterm = "=0.28.1"
hex = "=0.4.3"
libc = "=0.2.191"
ring = "=0.17.14"
serde_json = "=1.0.154"
sha2 = "=0.11.1"
tar = "=0.4.46"
tokio = { version = "=1.54.1", features = ["rt", "sync", "time", "macros", "io-util", "fs", "process"] }
zeroize = "=1.9.1"
