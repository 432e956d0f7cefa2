[package]
name = "nautilus_cache"
version = "0.1.0"
edition = "2021"
publish = false

[dependencies]
ahash = "*"
anyhow = "1"
async-trait = "0.1"
bytes = "1"
log = "0.4"
redis = { version = "*", default-features = false, features = ["aio", "connection-manager", "tokio-comp"] }
sysinfo = "*"
tokio = { version = "1", features = ["macros", "rt", "rt-multi-thread", "sync", "time"] }
ustr = "*"
