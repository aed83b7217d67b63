[package]
name = "edmarket"
version = "0.1.0"
edition = "2021"
publish = false

[dependencies]
dotenv = "0.15"
rocket = { version = "0.5", features = ["json"] }
rocket_sync_db_pools = { version = "0.1", features = ["postgres_pool"] }
serde = { version = "1", features = ["derive"] }
serde_json = "1"
