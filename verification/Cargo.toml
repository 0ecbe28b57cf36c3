[package]
name = "centaur_session_sqlx"
version = "0.1.0"
edition = "2021"
publish = false

[dependencies]
serde = { version = "=1.0.229", features = ["derive"] }
serde_json = "=1.0.154"
sha2 = "=0.10.9"
sqlx = { version = "=0.8.6", default-features = false, features = ["postgres", "runtime-tokio", "json", "time", "migrate", "derive"] }
thiserror = "=2.0.21"
time = { version = "=0.3.55", features = ["formatting", "parsing", "serde"] }
uuid = { version = "=1.29.0", features = ["v4"] }
