[package]
name = "spore_warriors_resource"
version = "0.1.0"
edition = "2021"
publish = false

[dependencies]
serde_json = "=1.0.151"
molecule = "=0.7.5"
eyre = "=0.6.14"
