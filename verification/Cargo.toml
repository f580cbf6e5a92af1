[package]
name = "room_registry"
version = "0.1.0"
edition = "2021"
publish = false

[dependencies]
dashmap = "6"
rand = "0.8"
serde = { version = "1", features = ["derive"] }
serde_json = "1"
axum = { version = "0.7", default-features = false, features = ["json", "macros"] }
once_cell = "1"
tower-http = { version = "0.5", features = ["cors"] }
tower-service = "0.3"
reqwest = { version = "0.12", default-features = false }
worker = { version = "0.4", features = ["http", "axum"] }
console_error_panic_hook = "0.1"
