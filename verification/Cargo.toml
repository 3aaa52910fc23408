[package]
name = "nezumi"
version = "0.1.0"
edition = "2021"
publish = false

[dependencies]
clap = { version = "4", features = ["derive"] }
futures-util = "0.3"
hex = "0.4"
hidapi = "2"
linked-hash-map = { version = "0.5", features = ["serde_impl"] }
serde = { version = "1", features = ["derive"] }
thiserror = "1"
tokio = { version = "1", features = ["macros", "rt", "time"] }
tokio-udev = "0.8"
toml = "0.5"
tracing = "0.1"
tracing-subscriber = "0.3"
