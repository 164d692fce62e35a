[package]
name = "nautilus_bin"
version = "0.1.0"
edition = "2021"
publish = false

[dependencies]
anyhow = "=1.0.104"
serde = { version = "=1.0.229", features = ["derive"] }
serde_json = "=1.0.154"
toml = "=1.1.8"
chrono = "=0.4.45"
clap = { version = "=4.6.7", features = ["derive"] }
dotenvy = "=0.15.7"
log = "=0.4.35"
ahash = "=0.8.12"
bon = "=3.10.3"
tokio = { version = "=1.54.1", features = ["macros", "rt-multi-thread"] }
rust_decimal = "=1.43.0"
nautilus-core = { version = "=0.56.0", default-features = false }
nautilus-model = { version = "=0.56.0", default-features = false }
nautilus-common = { version = "=0.56.0", default-features = false }
nautilus-trading = { version = "=0.56.0", default-features = false, features = ["examples"] }
nautilus-portfolio = { version = "=0.56.0", default-features = false }
nautilus-backtest = { version = "=0.56.0", default-features = false }
rustuna_core = "=0.0.0-alpha.1"
rustuna_sampler = "=0.0.0-alpha.1"
rustuna_storage = "=0.0.0-alpha.1"
