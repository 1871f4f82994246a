[package]
name = "iotcraft_client"
version = "0.1.0"
edition = "2021"
publish = false

[dependencies]
unic-langid = "0.9"
rand = "0.8"
serde = { version = "1", features = ["derive"] }
serde_json = "1"
chrono = "0.4"
clap = { version = "4", features = ["derive"] }
flate2 = "1"
rumqttc = { version = "0.24", default-features = false }
tokio = { version = "1", features = ["rt-multi-thread", "macros", "time", "sync", "net", "io-util"] }
