[package]
name = "sensor_node"
version = "0.1.0"
edition = "2021"
publish = false

[dependencies]
anyhow = "1"
esp-idf-svc = "0.49"
log = "0.4"
sht4x = "*"
toml-cfg = "*"
