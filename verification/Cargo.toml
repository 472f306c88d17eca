[package]
name = "ref_data"
version = "0.1.0"
edition = "2021"
publish = false

[dependencies]
chrono = { version = "*", features = ["serde"] }
serde = { version = "*", features = ["derive"] }
serde_json = "*"
thiserror = "*"
rusqlite = { version = "*", features = ["bundled"] }
