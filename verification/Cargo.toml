[package]
name = "scrapy_rs"
version = "0.1.0"
edition = "2021"
publish = false

[dependencies]
url = "=2.5.8"
regex = "=1.13.1"
rand = "=0.8.8"
serde = { version = "=1.0.229", features = ["derive"] }
serde_json = "=1.0.154"
log = "=0.4.35"
tokio = { version = "=1.54.1", features = ["rt-multi-thread", "macros", "sync", "time", "fs"] }
futures = "=0.3.34"
async-trait = "=0.1.92"
reqwest = { version = "=0.12.28", default-features = false }
chrono = { version = "=0.4.45", features = ["serde"] }
thiserror = "=1.0.69"
sysinfo = "=0.30.13"
csv = "=1.4.0"
colored = "=2.2.0"
indicatif = "=0.17.11"
clap = { version = "=4.6.7", features = ["derive"] }
warp = { version = "=0.3.7", default-features = false }
axum = { version = "=0.6.20", features = ["ws"] }
tower-http = { version = "=0.4.4", features = ["cors", "trace"] }
tracing = "=0.1.44"
tracing-subscriber = { version = "=0.3.23", features = ["env-filter"] }
pyo3 = "0.20"
env_logger = "0.11"
