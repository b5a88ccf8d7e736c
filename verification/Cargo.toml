[package]
name = "bot_core"
version = "0.1.0"
edition = "2021"
publish = false

[dependencies]
scryfall = "*"
serenity = { version = "0.11", features = ["client", "gateway", "model", "framework", "standard_framework", "rustls_backend", "cache", "http"] }
tokio = { version = "1", features = ["macros", "rt-multi-thread", "signal"] }
tracing-subscriber = "0.3"
