[package]
name = "ravage"
version = "0.1.0"
edition = "2021"
publish = false

[dependencies]
actix-session = { version = "=0.10.1", features = ["cookie-session"] }
actix-web = { version = "=4.18.1", default-features = false, features = ["macros", "cookies", "secure-cookies"] }
actix-ws = "=0.3.1"
chrono = { version = "=0.4.45", features = ["serde"] }
diesel = { version = "=2.3.14", features = ["sqlite", "r2d2", "chrono", "returning_clauses_for_sqlite_3_35"] }
dotenvy = "=0.15.7"
env_logger = "=0.11.11"
futures = "=0.3.34"
futures-util = "=0.3.34"
html-escape = "=0.2.15"
reqwest = { version = "=0.12.28", default-features = false, features = ["json", "rustls-tls"] }
rust-embed = { version = "=8.13.0", features = ["include-exclude", "interpolate-folder-path"] }
serde = { version = "=1.0.229", features = ["derive"] }
serde_json = "=1.0.154"
tera = { version = "=1.20.1", default-features = false }
tokio = { version = "=1.54.1", features = ["rt", "macros", "sync", "fs", "time"] }
tokio-stream = { version = "=0.1.19", features = ["sync"] }
