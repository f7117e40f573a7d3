[package]
name = "connector_core"
version = "0.1.0"
edition = "2021"
publish = false

[dependencies]
serde = { version = "1", features = ["derive"] }
serde_json = "1"
time = "0.3"
async-trait = "0.1"
dyn-clone = "1"
