[package]
name = "aetheryte"
version = "0.1.0"
edition = "2021"
publish = false

[dependencies]
domain = "=0.6.1"
glob = "=0.3.4"
maxminddb = "=0.17.3"
tokio = { version = "=1.54.1", features = ["full"] }
tokio-rustls = "=0.22.0"
rustls-native-certs = "=0.5.0"
redis = { version = "=0.20.2", features = ["tokio-comp"] }
nix = "0.22"
libc = "=0.2.191"
ctrlc = "=3.5.2"
futures = "=0.3.34"
serde = { version = "=1.0.229", features = ["derive"] }
serde_json = "=1.0.154"
