[package]
name = "mqtt_async_client"
version = "0.1.0"
edition = "2021"
publish = false

[dependencies]
mqttrs = "0.4"
bytes = "1"
tokio = { version = "1", features = ["macros", "net", "rt", "sync", "time", "io-util"] }
rustls = "0.21"
tokio-rustls = "0.24"
log = "0.4"
