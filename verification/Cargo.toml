[package]
name = "osheems_common"
version = "0.1.0"
edition = "2021"
publish = false

[dependencies]
serde = { version = "1", features = ["derive"] }
serde_json = "1"
chrono = "0.4"
tokio = { version = "1", features = ["full"] }
rhai = { version = "1", features = ["serde", "sync"] }
rumqttc = { version = "*", default-features = false }
rusqlite = { version = "*", features = ["bundled"] }
walkdir = "2"
log = "0.4"
env_logger = "*"
async-trait = "0.1"
i2cdev = "*"
serialport = { version = "4", default-features = false }
tokio-serial = "5"
