[package]
name = "tantivy_sqlite_storage"
version = "0.1.0"
edition = "2021"
publish = false

[dependencies]
parking_lot = "0.12"
r2d2 = "0.8"
r2d2_sqlite = "0.21"
rusqlite = { version = "0.28", features = ["bundled", "blob"] }
tantivy = "0.18"
thiserror = "1"

[dev-dependencies]
uuid = { version = "1", features = ["v4"] }
