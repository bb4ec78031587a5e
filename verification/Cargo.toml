[package]
name = "maxine"
version = "0.1.0"
edition = "2021"
publish = false

[dependencies]
colors-transform = "=0.2.11"
rand = "=0.9.5"
regex = "=1.13.1"
scraper = "=0.29.0"
poise = "=0.6.2"
serenity = "=0.12.5"
rig-core = "0.11"
sqlx = { version = "=0.8.6", default-features = false, features = ["sqlite", "runtime-tokio"] }
reqwest = { version = "=0.12.28", features = ["json"] }
serde = { version = "=1.0.229", features = ["derive"] }
serde_json = "=1.0.154"
tempfile = "=3.27.0"
tokio = { version = "=1.54.1", features = ["rt-multi-thread", "macros", "fs"] }
