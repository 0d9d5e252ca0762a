[package]
name = "vault_indexer"
version = "0.1.0"
edition = "2021"
publish = false

[dependencies]
anyhow = "1"
chrono = { version = "0.4", default-features = false, features = ["now"] }
dotenv = "0.15"
env_logger = { version = "0.10", default-features = false }
ethers = { version = "2.0", default-features = false, features = ["ws", "rustls"] }
log = "0.4"
serde = { version = "1", features = ["derive"] }
serde_json = "1"
tokio = { version = "1", features = ["macros", "rt-multi-thread"] }
