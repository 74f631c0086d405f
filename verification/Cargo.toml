[package]
name = "guild_playback"
version = "0.1.0"
edition = "2021"
publish = false

[dependencies]
dotenv = "0.15"
serenity = { version = "0.11", default-features = false, features = ["builder", "cache", "client", "framework", "gateway", "http", "model", "rustls_backend", "standard_framework", "utils", "voice"] }
songbird = { version = "0.3", features = ["builtin-queue"] }
tokio = { version = "1", features = ["macros", "rt-multi-thread", "signal"] }
