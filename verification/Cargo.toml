[package]
name = "binxml_output"
version = "0.1.0"
edition = "2021"
publish = false

[dependencies]
serde_json = "1"
xml-rs = "0.8"
