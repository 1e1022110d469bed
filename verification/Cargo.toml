[package]
name = "dgram_relay"
version = "0.1.0"
edition = "2021"
publish = false

[dependencies]
ring = "*"
quiche = "*"
mio = "*"
docopt = "*"
env_logger = "*"
log = "*"
serde = { version = "*", features = ["derive"] }
serde_json = "*"
serde_with = "*"
