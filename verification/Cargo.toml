[package]
name = "buzzd"
version = "0.1.0"
edition = "2021"
publish = false

[dependencies]
ctrlc = "*"
dirs = "*"
paho-mqtt = "*"
rppal = "*"
scheduler = "*"
serde_json = "1"
