[package]
name = "vueko"
version = "0.1.0"
edition = "2021"
publish = false

[dependencies]
anyhow = "1"
dotenvy = "0.15"
tmi = "0.5"
tokio = { version = "1", features = ["rt-multi-thread", "sync"] }
