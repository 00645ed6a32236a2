[package]
name = "chess_rating"
version = "0.1.0"
edition = "2021"
publish = false

[dependencies]
base64 = "0.22"
uuid = { version = "1", features = ["v4"] }
chrono = "0.4"
async-trait = "0.1"
sea-orm = { version = "1", default-features = false, features = ["macros", "with-chrono", "with-uuid", "with-json"] }
sea-orm-migration = { version = "1", default-features = false }
