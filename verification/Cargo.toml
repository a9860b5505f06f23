[package]
name = "rust-esp32-std-demo"
version = "0.1.0"
edition = "2021"
publish = false

[dependencies]
anyhow = "1"
bytes = "0.5"
display-interface-spi = "0.4"
embedded-graphics = "0.7"
embedded-svc = "0.24"
esp-idf-hal = "0.40"
esp-idf-svc = "0.45"
esp-idf-sys = "0.32"
log = "0.4"
mipidsi = "0.6"
mqtt-v5 = "0.1.1"
serde = { version = "1", features = ["derive"] }
serde_json = "1"
smart-leds = "0.3"
smol = "1"
ssd1306 = "0.7"
ws2812-esp32-rmt-driver = "0.4"
