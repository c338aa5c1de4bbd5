[package]
name = "mini_book"
version = "0.1.0"
edition = "2021"
publish = false

[dependencies]
async-trait = "0.1"
bcrypt = "0.15"
jsonwebtoken = "9"
rocket = { version = "0.5", features = ["json"] }
sea-orm = { version = "1", features = ["sqlx-mysql", "runtime-tokio-rustls", "macros"] }
sea-orm-migration = "1"
serde_json = "1"
