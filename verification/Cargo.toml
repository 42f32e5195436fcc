[package]
name = "ttsbot"
version = "0.1.0"
edition = "2021"
publish = false

[dependencies]
serenity = { version = "0.12", default-features = false, features = ["client", "gateway", "rustls_backend", "model", "cache", "voice", "http", "builder", "utils"] }
poise = "0.6"
songbird = { version = "0.4", default-features = false, features = ["serenity", "gateway", "driver", "builtin-queue"] }
reqwest = { version = "0.11", default-features = false, features = ["json"] }
tokio = { version = "1", features = ["macros", "rt-multi-thread", "signal"] }
serde = { version = "1", features = ["derive"] }
serde_json = "1"
dotenv = "0.15"
