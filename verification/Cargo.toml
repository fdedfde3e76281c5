[package]
name = "witchcraft_notifications"
version = "0.1.0"
edition = "2021"
publish = false

[dependencies]
anyhow = "1"
dirs = "4"
futures = "0.3"
log = "0.4"
open = "5"
parking_lot = "0.12"
serde = { version = "1", features = ["derive"] }
serde_json = "1"
url = "2"
yawc = "0.2"
