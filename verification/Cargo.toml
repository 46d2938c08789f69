[package]
name = "eventsub_core"
version = "0.1.0"
edition = "2021"
publish = false

[dependencies]
anyhow = "1"
dashmap = "=6.2.1"
futures = "0.3"
rand = "=0.8.8"
reqwest = "=0.13.5"
tokio = { version = "=1.53.2", features = ["sync", "rt-multi-thread", "macros", "net", "time", "signal"] }
tokio-tungstenite = "=0.30.0"
tokio-util = "0.7"
twitch_api = { version = "=0.8.0", features = ["helix", "eventsub", "reqwest"] }
url = "=2.5.8"
