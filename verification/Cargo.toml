[package]
name = "sql_bridge"
version = "0.1.0"
edition = "2021"
publish = false

[dependencies]
rusqlite = { version = "0.41.0", features = ["bundled"] }
serde = { version = "1", features = ["derive"] }
serde_json = "1"
tauri = { version = "2", default-features = false }
