[package]
name = "sendgrid_amqp_bridge"
version = "0.1.0"
edition = "2021"
publish = false

[dependencies]
serde_json = "=1.0.151"
serde = { version = "=1.0.229", features = ["derive"] }
serde_yaml = "=0.9.34"
lapin = "=4.12.0"
tokio = { version = "=1.53.2", features = ["rt-multi-thread", "macros"] }
sendgrid = "=0.27.2"
futures-lite = "*"
