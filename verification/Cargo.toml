[package]
name = "mqttc"
version = "0.1.0"
edition = "2021"
publish = false

[dependencies]
mqtt3 = "0.1"
netopt = "0.1"
rand = "0.3"
url = "1"
