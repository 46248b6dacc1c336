[package]
name = "hamming_ext"
version = "0.1.0"
edition = "2021"
publish = false

[dependencies]
rusqlite = { version = "0.25", features = ["functions", "bundled"] }
diesel = { version = "1.4", features = ["sqlite"] }
diesel_migrations = "1.4"
dotenv = "0.15"
serde = { version = "1", features = ["derive"] }
serde_json = "1"
reqwest = { version = "0.11", default-features = false }
