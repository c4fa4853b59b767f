[package]
name = "echopup"
version = "0.1.0"
edition = "2021"
publish = false

[dependencies]
global-hotkey = "=0.9.0"
dirs = "=7.0.0"
anyhow = "=1.0.104"
clap = { version = "=4.6.7", features = ["derive"] }
serde = { version = "=1.0.229", features = ["derive"] }
serde_json = "=1.0.154"
toml = "=1.1.8"
fs2 = "=0.4.3"
libc = "=0.2.191"
tracing = "=0.1.44"
tracing-subscriber = { version = "=0.3.23", features = ["env-filter"] }
parking_lot = "=0.13.0"
ctrlc = "=3.5.2"
reqwest = { version = "=0.12.28", default-features = false, features = ["blocking", "rustls-tls"] }
cpal = "*"
enigo = "*"
rdev = "*"
