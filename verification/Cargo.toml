[package]
name = "stream_deck"
version = "0.1.0"
edition = "2021"
publish = false

[dependencies]
serde = { version = "1", features = ["derive"] }
serde_json = "1"
twitch_api = { version = "*", default-features = false, features = ["eventsub"] }
zerocopy = "*"
serial2 = "*"
eyre = "*"
