[package]
name = "vault_rate_limiter"
version = "0.1.0"
edition = "2021"
publish = false

[dependencies]
dashmap = "5"
sha256 = "1"
chrono = "0.4"
tokio = { version = "1", features = ["macros", "rt-multi-thread"] }
warp = "0.3"
