[package]
name = "streamertools"
version = "0.1.0"
edition = "2021"
publish = false

[dependencies]
rand = "=0.9.5"
serde = { version = "=1.0.229", features = ["derive"] }
serde_json = "=1.0.154"
iced = { version = "=0.14.0", default-features = false, features = ["tiny-skia", "canvas", "tokio", "x11"] }
iced_aw = "=0.14.1"
reqwest = { version = "=0.12.28", default-features = false, features = ["json", "rustls-tls"] }
tokio = { version = "1", features = ["time"] }
tracing = "0.1"
tracing-subscriber = { version = "0.3", features = ["env-filter"] }
tracing-appender = "0.2"
keyring = "3"
open = "5"
directories = "6"

[dev-dependencies]
serde_json = "=1.0.154"
