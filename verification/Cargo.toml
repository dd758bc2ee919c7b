[package]
name = "songcache"
version = "0.1.0"
edition = "2021"
publish = false

[dependencies]
actix = "=0.13.5"
actix-files = "=0.7.2"
actix-redis = "=0.13.1"
actix-rt = "=2.15.0"
actix-web = "=4.18.1"
csv = "=1.4.0"
futures = "=0.3.34"
redis = { version = "=1.8.0", features = ["tokio-comp"] }
redis-async = "=0.16.1"
reqwest = { version = "=0.13.5", features = ["json", "stream"] }
serde = { version = "=1.0.229", features = ["derive"] }
serde_derive = "=1.0.229"
serde_json = "=1.0.154"
