[package]
name = "witness_gate"
version = "0.1.0"
edition = "2021"
publish = false

[dependencies]
tinyjson = "2"
log = "0.4"
serde_json = "1"
url = "2"
smol = "2"
rusqlite = "*"
miniquad = "*"
