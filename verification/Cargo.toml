[package]
name = "chat_relay"
version = "0.1.0"
edition = "2021"
publish = false

[dependencies]
serde_json = { version = "1", features = ["preserve_order"] }
reqwest = "0.12"
tokio = { version = "1", features = ["rt-multi-thread", "macros"] }
twitch-irc = "*"
