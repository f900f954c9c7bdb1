[package]
name = "agenterra-core"
version = "0.1.0"
edition = "2021"
publish = false

[dependencies]
anyhow = "1"
clap = { version = "4", features = ["derive"] }
dialoguer = "0.11"
dirs = "5"
log = "0.4"
notify = "6"
regex = "1"
reqwest = { version = "0.12", default-features = false, features = ["rustls-tls"] }
serde = { version = "1", features = ["derive"] }
serde_json = "1"
serde-value = "0.7"
serde_yaml = "0.9"
tempfile = "3"
tera = { version = "1", default-features = false }
thiserror = "1"
tokio = { version = "1", features = ["fs", "macros", "process", "rt-multi-thread", "sync"] }
toml = "0.8"
tracing-subscriber = "0.3"
url = "2"
