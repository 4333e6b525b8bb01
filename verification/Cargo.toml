[package]
name = "esp32-lighting"
version = "0.1.0"
edition = "2021"
publish = false

[dependencies]
anyhow = "=1.0.104"
base64 = "=0.22.1"
either = "=1.19.0"
esp-idf-svc = "=0.51.0"
futures = "=0.3.34"
heapless = "=0.8.0"
http = "=1.5.0"
log = "=0.4.35"
maud = "=0.27.0"
rgb = "=0.8.53"
serde = { version = "=1.0.229", features = ["derive"] }
serde_json = "=1.0.154"
smart-leds-trait = "=0.3.2"
url = "=2.5.8"
ws2812-esp32-rmt-driver = "*"
