[package]
name = "sensor_node"
version = "0.1.0"
edition = "2021"
publish = false

[dependencies]
heapless = "0.7"
postcard = { version = "1", features = ["heapless"] }
serde = { version = "1", features = ["derive"] }
embedded-hal = "0.2"
anyhow = "1"
