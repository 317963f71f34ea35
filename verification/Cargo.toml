[package]
name = "uma"
version = "0.1.0"
edition = "2021"
publish = false

[dependencies]
chrono = { version = "0.4", default-features = false, features = ["alloc", "std"] }
subtle = "2"
scraper = "*"
serde = { version = "1", features = ["derive"] }
serde_json = "1"
log = "0.4"
env_logger = "*"
dotenvy = "*"
clap = { version = "4", features = ["derive"] }
futures = "0.3"
tokio = { version = "1", features = ["rt-multi-thread", "macros", "time", "sync", "net"] }
reqwest = { version = "0.12", default-features = false }
axum = "0.8"
sqlx = { version = "0.8", default-features = false, features = ["postgres", "runtime-tokio", "chrono"] }
thiserror = "2"
