[package]
name = "proksi"
version = "0.1.0"
edition = "2021"
publish = false

[dependencies]
anyhow = "=1.0.104"
arc-swap = "=1.9.3"
async-trait = "=0.1.92"
dashmap = "=5.5.3"
instant-acme = "=0.8.5"
pingora = { version = "=0.9.0", features = ["lb", "proxy", "openssl"] }
pingora-load-balancing = "=0.9.0"
pingora-proxy = "=0.9.0"
tokio = { version = "=1.54.1", features = ["sync", "rt", "macros", "time"] }
tracing = "=0.1.44"
tracing-appender = "=0.2.5"
tracing-subscriber = "=0.3.23"
