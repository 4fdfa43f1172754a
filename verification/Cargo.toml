[package]
name = "reminder_cli"
version = "0.1.0"
edition = "2021"
publish = false

[dependencies]
anyhow = "1"
chrono = { version = "0.4", default-features = false, features = ["std", "now"] }
clap = { version = "4", features = ["derive"] }
dotenvy = "0.15"
humantime = "2"
notify-rust = "4"
reqwest = { version = "0.12", default-features = false, features = ["json", "rustls-tls"] }
serde_json = "1"
sqlx = { version = "0.8", default-features = false, features = ["sqlite", "runtime-tokio", "derive"] }
tokio = { version = "1", features = ["macros", "rt-multi-thread", "time"] }
