[package]
name = "kvstore"
version = "0.1.0"
edition = "2021"
publish = false

[dependencies]
r2d2 = "*"
r2d2_sqlite = "*"
rocket = { version = "*", features = ["json"] }
rusqlite = "*"
serde_json = "*"
