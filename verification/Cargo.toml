[package]
name = "esp_wifi_adapter"
version = "0.1.0"
edition = "2021"
publish = false

[dependencies]
atat = "*"
nb = "*"
