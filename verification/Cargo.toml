[package]
name = "query_export"
version = "0.1.0"
edition = "2021"
publish = false

[dependencies]
ansi_term = "0.12"
chrono = "0.4"
clap = { version = "4", features = ["derive"] }
csv = "1"
env_logger = "0.11"
futures = "0.3"
indicatif = "0.17"
log = "0.4"
regex = "1"
rust_decimal = "1"
sqlx = { version = "0.8", default-features = false, features = ["mysql", "runtime-tokio", "chrono", "rust_decimal", "time"] }
time = "0.3"
tokio = { version = "1", features = ["macros", "rt-multi-thread"] }
