[package]
name = "snx_tunnel"
version = "0.1.0"
edition = "2021"
publish = false

[dependencies]
anyhow = "*"
futures = "*"
serde = { version = "*", features = ["derive"] }
serde_json = "*"
tokio = { version = "*", features = ["macros", "rt", "net", "time", "io-util"] }
tokio-native-tls = "*"
tokio-util = { version = "*", features = ["codec"] }
tun = { version = "*", features = ["async"] }
