[package]
name = "enviro_loop"
version = "0.1.0"
edition = "2021"
publish = false

[dependencies]
dht11 = "*"
embedded-graphics = "*"
esp-idf-hal = "*"
esp-idf-svc = "*"
log = "*"
ssd1306 = "*"
