[package]
name = "network_monitor"
version = "0.1.0"
edition = "2021"
publish = false

[dependencies]
dirs = "5"
futures-util = "0.3"
image = { version = "0.25", default-features = false, features = ["png"] }
ksni = "0.3"
notify-rust = "4"
reqwest = { version = "0.12", default-features = false, features = ["json", "rustls-tls"] }
serde = { version = "1", features = ["derive"] }
thiserror = "1"
tokio = { version = "1", features = ["full"] }
tracing = "0.1"
tracing-subscriber = { version = "0.3", features = ["env-filter"] }
zbus = "5"
