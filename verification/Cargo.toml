[package]
name = "server"
version = "0.1.0"
edition = "2021"
publish = false

[dependencies]
async-trait = "0.1"
bcrypt = "0.17"
chrono = "0.4"
dotenvy = "0.15"
lazy_static = "1"
rand = "0.9"
rand_chacha = "0.9"
rocket = { version = "0.5", features = ["json"] }
rocket-include-static-resources = "0.10"
serde = { version = "1", features = ["derive"] }
serde_json = "1"
sqlx = { version = "0.8", default-features = false, features = ["mysql", "runtime-tokio", "chrono", "json"] }
tokio = { version = "1", features = ["full"] }
