[package]
name = "meroctl"
version = "0.1.0"
edition = "2021"
publish = false

[dependencies]
bs58 = "*"
libp2p = { version = "*", default-features = false, features = ["ed25519"] }
chrono = "*"
serde = { version = "*", features = ["derive"] }
serde_json = "*"
reqwest = { version = "*", default-features = false, features = ["blocking", "json"] }
clap = { version = "*", features = ["derive"] }
comfy-table = "*"
eyre = "*"
