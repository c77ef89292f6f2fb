[package]
name = "rust_vpn"
version = "0.1.0"
edition = "2021"
publish = false

[dependencies]
anyhow = "1"
clap = { version = "4", features = ["derive"] }
clap_derive = "4"
cli-log = "2"
ctrlc2 = "*"
ipnet = "2"
packet_parser = "*"
serde = { version = "1", features = ["derive"] }
serde_json = "1"
thiserror = "*"
tokio = { version = "1", features = ["full"] }
tokio-util = "0.7"
tun = "0.7"
x25519-dalek = { version = "2", features = ["serde"] }
