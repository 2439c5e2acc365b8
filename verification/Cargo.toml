[package]
name = "chukka-obs"
version = "0.1.0"
edition = "2021"
publish = false

[dependencies]
anyhow = "=1.0.104"
axum = { version = "=0.8.9", features = ["ws"] }
clap = { version = "=4.6.7", features = ["derive"] }
directories = "=6.0.0"
figment = { version = "=0.10.19", features = ["toml", "env"] }
futures-util = { version = "=0.3.34", features = ["sink"] }
mime_guess = "=2.0.5"
reqwest = { version = "=0.12.28", default-features = false, features = ["json", "rustls-tls"] }
rust-embed = { version = "=8.13.0", features = ["interpolate-folder-path"] }
serde = { version = "=1.0.229", features = ["derive"] }
serde_json = "=1.0.154"
tokio = { version = "=1.54.1", features = ["full"] }
tokio-tungstenite = { version = "=0.26.2", features = ["rustls-tls-webpki-roots"] }
toml = "=0.8.23"
tower-http = { version = "=0.6.11", features = ["cors"] }
tracing = "=0.1.44"
tracing-subscriber = { version = "=0.3.23", features = ["env-filter", "fmt"] }
