[package]
name = "creator_store"
version = "0.1.0"
edition = "2021"
publish = false

[dependencies]
regex = "1"
url = "2"
rusqlite = { version = "*", features = ["bundled"] }
dirs = "*"
serde = { version = "1", features = ["derive"] }
tauri = { version = "*", default-features = false }
