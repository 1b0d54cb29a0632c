[package]
name = "easycontainer"
version = "0.1.0"
edition = "2021"
publish = false

[dependencies]
anyhow = "1"
futures = "0.3"
glob = "0.3"
serde = "1"
serde_derive = "1"
structopt = "0.3"
tokio = { version = "1", features = ["full"] }
toml = "0.5"
tracing = "0.1"
tracing-subscriber = "0.3"
