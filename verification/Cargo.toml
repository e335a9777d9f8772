[package]
name = "mqtt_logger"
version = "0.1.0"
edition = "2021"
publish = false

[dependencies]
dotenvy = "*"
rumqttc = { version = "*", default-features = false }
rusqlite = "*"
serde_json = "1"
tokio = { version = "1", features = ["macros", "rt-multi-thread", "time"] }
