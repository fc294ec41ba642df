[package]
name = "homemagic_application"
version = "0.1.0"
edition = "2021"
publish = false

[dependencies]
sha2 = "*"
argon2 = "*"
rand = "*"
chrono = "*"
chrono-tz = "*"
cron = "*"
serde = { version = "*", features = ["derive"] }
serde_json = "*"
thiserror = "*"
zeroize = { version = "*", features = ["derive"] }
tokio = { version = "*", features = ["sync", "rt", "macros"] }
async-trait = "*"
axum = { version = "*", features = ["ws"] }
tower-http = "*"
