[package]
name = "mcmeta"
version = "0.1.0"
edition = "2021"
publish = false

[dependencies]
regex = "=1.13.1"
sha1 = "=0.10.7"
sha2 = "=0.10.9"
anyhow = "=1.0.104"
serde = { version = "=1.0.229", features = ["derive"] }
serde_json = "=1.0.154"
time = { version = "=0.3.55", features = ["serde", "parsing", "formatting"] }
zip = { version = "=0.6.6", default-features = false, features = ["deflate", "time"] }
tokio = { version = "=1.54.1", features = ["rt-multi-thread", "macros"] }
futures = "=0.3.34"
tracing = "=0.1.44"
thiserror = "=1.0.69"
axum = "0.6"
clap = { version = "4", features = ["derive"] }
config = { version = "0.13", default-features = false, features = ["toml", "json"] }
dotenv = "0.15"
reqwest = { version = "0.11", default-features = false, features = ["rustls-tls"] }
tempdir = "0.3"
tracing-appender = "0.2"
tracing-subscriber = { version = "0.3", features = ["env-filter"] }
