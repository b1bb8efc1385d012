[package]
name = "chain_cache"
version = "0.1.0"
edition = "2021"
publish = false

[dependencies]
dashmap = "*"
serde = { version = "*", features = ["derive"] }
serde_json = "*"
tokio = { version = "*", features = ["macros", "rt-multi-thread", "net"] }
axum = "*"
reqwest = { version = "*", default-features = false, features = ["json"] }
