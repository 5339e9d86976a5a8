[package]
name = "spider_rs"
version = "0.1.0"
edition = "2021"
publish = false

[dependencies]
spider = { version = "=1.99.37", features = ["control", "cron", "openai", "chrome_intercept", "sitemap", "smart", "regex"] }
serde_json = "=1.0.154"
indexmap = "=2.14.2"
napi = { version = "=2.16.17", default-features = false, features = ["napi4", "tokio_rt", "serde-json"] }
napi-derive = "=2.16.13"
