[package]
name = "deck_sync"
version = "0.1.0"
edition = "2021"
publish = false

[dependencies]
anyhow = "1"
obws = "*"
streamdeck = "*"
tokio = { version = "1", features = ["macros", "rt-multi-thread", "time"] }
