[package]
name = "ferrum_email"
version = "0.1.0"
edition = "2021"
publish = false

[dependencies]
base64 = "=0.22.1"
async-trait = "=0.1.92"
tokio = { version = "=1.54.1", features = ["rt-multi-thread", "macros", "net", "io-util", "time", "process"] }
rustls = { version = "=0.23.46", default-features = false, features = ["ring", "std", "tls12"] }
tokio-rustls = { version = "=0.26.6", default-features = false, features = ["ring", "tls12"] }
webpki-roots = "=0.26.11"
serde = { version = "=1.0.229", features = ["derive"] }
serde_json = "=1.0.154"
thiserror = "=2.0.21"
reqwest = { version = "=0.12.28", default-features = false, features = ["blocking", "json", "rustls-tls"] }
dirs = "=6.0.0"
crossterm = "=0.28.1"
ratatui = "=0.29.0"
tracing = "=0.1.44"
tracing-subscriber = { version = "=0.3.23", features = ["env-filter", "fmt"] }
nexus-shield = "=0.5.0"
aegis-vault = "=0.3.5"
axum = "0.8"
