[package]
name = "eventsub"
version = "0.1.0"
edition = "2021"
publish = false

[dependencies]
log = "0.4"
open = "5"
serde = { version = "1", features = ["derive"] }
serde_json = "1"
thiserror = "1"
tungstenite = "0.21"
ureq = { version = "2", features = ["json"] }
