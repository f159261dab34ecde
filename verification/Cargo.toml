[package]
name = "ftms"
version = "0.1.0"
edition = "2021"
publish = false

[dependencies]
bluer = { version = "=0.17.4", features = ["bluetoothd"] }
env_logger = "=0.11.11"
futures = "=0.3.34"
libdbus-sys = { version = "=0.2.7", features = ["vendored"] }
log = "=0.4.34"
serde = { version = "=1.0.229", features = ["derive"] }
serde_json = "=1.0.154"
tokio = { version = "=1.54.1", features = ["rt-multi-thread", "macros", "net", "io-util", "time", "sync", "signal"] }
uuid = "=1.29.0"
