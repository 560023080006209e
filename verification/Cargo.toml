[package]
name = "nex_relay"
version = "0.1.0"
edition = "2021"
publish = false

[dependencies]
serde_json = "=1.0.151"
chrono = "=0.4.45"
rand = "=0.10.3"
serde = { version = "=1.0.229", features = ["derive"] }
tokio = { version = "=1.53.2", features = ["full"] }
warp = { version = "=0.4.3", features = ["server", "websocket"] }
futures = "=0.3.34"
clap = { version = "=4.6.7", features = ["derive"] }
log = "=0.4.34"
env_logger = "=0.11.11"
url = "=2.5.8"
async-nats = "=0.50.0"
