[package]
name = "balamut"
version = "0.1.0"
edition = "2021"
publish = false

[dependencies]
rand = "=0.8.8"
warp = "=0.3.7"
tokio = { version = "=1.54.1", features = ["macros", "rt-multi-thread", "sync"] }
rusqlite = { version = "=0.41.1", features = ["bundled"] }
serde = { version = "=1.0.229", features = ["derive"] }
serde_derive = "=1.0.229"
serde_json = "=1.0.154"
mime = "=0.3.17"
pretty_env_logger = "=0.5.0"
