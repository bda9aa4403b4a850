[package]
name = "pterocord"
version = "0.1.0"
edition = "2021"
publish = false

[dependencies]
anyhow = "1"
async-tungstenite = { version = "0.28", features = ["tokio-runtime"] }
local-ip-address = "=0.6.13"
log = "0.4"
poise = "=0.7.0"
pterodactyl_api = { version = "=0.2.0", features = ["websocket"] }
serde = { version = "1", features = ["derive"] }
serde_json = "1"
serenity = "=0.12.5"
tokio = { version = "1", features = ["macros", "rt-multi-thread", "sync"] }
url = "2"
