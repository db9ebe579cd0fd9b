[package]
name = "fts_loader"
version = "0.1.0"
edition = "2021"
publish = false

[dependencies]
csv = "*"
rusqlite = { version = "*", features = ["bundled"] }
