[package]
name = "weather_sensor"
version = "0.1.0"
edition = "2021"
publish = false

[dependencies]
anyhow = "1"
bh1750-ehal = "*"
embedded-svc = "*"
esp-idf-hal = "*"
esp-idf-svc = "*"
esp-idf-sys = "*"
log = "0.4"
macaddr = "1"
serde = { version = "1", features = ["derive"] }
serde_json = "1"
