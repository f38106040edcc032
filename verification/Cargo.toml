[package]
name = "ledger_core"
version = "0.1.0"
edition = "2021"
publish = false

[dependencies]
uuid = { version = "1", features = ["v4", "serde"] }
chrono = { version = "0.4", features = ["serde"] }
rust_decimal = { version = "1", features = ["serde"] }
serde = { version = "1", features = ["derive"] }
serde_json = "1"
rusqlite = { version = "*", features = ["bundled", "chrono", "uuid"] }
sea-query = { version = "*", features = ["derive", "attr", "backend-sqlite", "with-chrono", "with-uuid", "with-json", "with-rust_decimal"] }
sea-query-rusqlite = { version = "*", features = ["with-chrono", "with-uuid", "with-json", "with-rust_decimal"] }
actix-web = { version = "4", default-features = false, features = ["macros"] }
jwt = "0.16"
hmac = "0.12"
sha2 = "0.10"
rand = "0.8"
log = "0.4"
