[package]
name = "solis"
version = "0.1.0"
edition = "2021"
publish = false

[dependencies]
rumqttc = { version = "*", default-features = false }
tokio = { version = "1", features = ["macros", "rt", "sync", "time"] }
tokio-modbus = { version = "0.5", default-features = false, features = ["rtu"] }
tokio-serial = "5.4"
