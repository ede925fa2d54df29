[package]
name = "m5stickc"
version = "0.1.0"
edition = "2021"
publish = false

[dependencies]
anyhow = "1"
critical-section = { version = "1", features = ["std"] }
display-interface = "0.4"
display-interface-spi = "0.4"
embedded-graphics = "0.8"
embedded-hal = "1"
embedded-hal-bus = "*"
esp-idf-hal = "*"
esp-idf-svc = "*"
esp-idf-sys = "*"
log = "0.4"
mipidsi = "0.7"
