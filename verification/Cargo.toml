[package]
name = "deriv_client"
version = "0.1.0"
edition = "2021"
publish = false

[dependencies]
clap = { version = "4", features = ["derive"] }
futures-util = "0.3"
serde_json = "1"
tokio = { version = "1", features = ["macros", "rt-multi-thread", "net", "time", "signal"] }
tokio-tungstenite = { version = "0.21", features = ["native-tls"] }
url = "2"
