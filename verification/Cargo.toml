[package]
name = "rtc_node"
version = "0.1.0"
edition = "2021"
publish = false

[dependencies]
dht11 = "0.3"
esp-idf-hal = "0.45"
esp-idf-svc = "0.51"
esp-idf-sys = "0.36"
log = "0.4"
