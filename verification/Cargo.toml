[package]
name = "solaredge2mqtt"
version = "0.1.0"
edition = "2021"
publish = false

[dependencies]
dotenv = "*"
log = "*"
reqwest = { version = "*", default-features = false, features = ["json"] }
rumqttc = "*"
serde = { version = "*", features = ["derive"] }
serde_json = "*"
simple_logger = "*"
tokio = { version = "*", features = ["macros", "rt-multi-thread", "time"] }
