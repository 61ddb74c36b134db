[package]
name = "rollup_http_server"
version = "0.1.0"
edition = "2021"
publish = false

[dependencies]
memmap2 = "=0.9.11"
actix-web = "4"
actix-server = "2"
async-mutex = "1"
log = "0.4"
nix = { version = "*", features = ["ioctl"] }
serde = { version = "1", features = ["derive"] }
serde_json = "1"
tokio = { version = "1", features = ["sync"] }
