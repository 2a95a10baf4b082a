[package]
name = "medkit"
version = "0.1.0"
edition = "2021"
publish = false

[dependencies]
jsonwebtoken = "7"
rust-argon2 = "0.8"
chrono = { version = "0.4", features = ["serde"] }
serde = { version = "1", features = ["derive"] }
serde_json = "1"
uuid = { version = "1", features = ["v4", "serde"] }
hmac = "0.10"
sha2 = "0.9"
nanoid = "0.3"
rocket = { version = "0.5", features = ["json"] }
rocket_sync_db_pools = { version = "0.1", features = ["diesel_postgres_pool"] }
diesel = { version = "2", features = ["postgres", "chrono", "uuid"] }
diesel-derive-enum = { version = "2", features = ["postgres"] }
isahc = { version = "1", features = ["json"] }
dotenv = "0.15"
fern = "0.6"
log = "0.4"
lazy_static = "1"
