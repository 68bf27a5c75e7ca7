[package]
name = "school_db"
version = "0.1.0"
edition = "2021"
publish = false

[dependencies]
serde = { version = "1", features = ["derive"] }
serde_json = "1"
sqlx = { version = "*", default-features = false, features = ["postgres", "runtime-tokio", "json", "uuid"] }
tracing = "0.1"
utoipa = "5"
uuid = { version = "1", features = ["v7"] }
