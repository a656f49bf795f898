[package]
name = "fleet_status"
version = "0.1.0"
edition = "2021"
publish = false

[dependencies]
clap = { version = "*", features = ["derive"] }
sqlx = { version = "*", features = ["runtime-tokio", "postgres"], default-features = false }
tokio = { version = "*", features = ["macros", "rt-multi-thread"] }
