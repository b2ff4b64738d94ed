[package]
name = "restate_opendal"
version = "0.1.0"
edition = "2021"
publish = false

[dependencies]
anyhow = "=1.0.104"
clap = { version = "=4.6.7", features = ["derive", "env"] }
figment = { version = "=0.10.19", features = ["toml", "json", "yaml", "env"] }
futures = "=0.3.34"
humantime-serde = "=1.1.1"
jiff = { version = "=0.2.38", features = ["serde"] }
opendal = { version = "=0.59.4", features = ["services-fs", "services-http"] }
restate-sdk = { version = "=0.12.1", features = ["schemars"] }
schemars = "=1.2.2"
serde = { version = "=1.0.229", features = ["derive"] }
tokio = { version = "=1.53.2", features = ["macros", "rt-multi-thread"] }
tracing-subscriber = "=0.3.23"
url = { version = "=2.5.8", features = ["serde"] }
