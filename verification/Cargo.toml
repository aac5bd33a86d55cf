[package]
name = "rumqtt"
version = "0.10.0"
edition = "2021"
publish = false

[dependencies]
chrono = "=0.4.45"
jsonwebtoken = "=8.3.0"
log = "=0.4.35"
mqtt3 = "=0.1.4"
mqtt-protocol = "=0.4.2"
quick-error = "=1.2.3"
serde_json = { version = "=1.0.154", features = ["preserve_order"] }
tokio-timer = "=0.1.2"
