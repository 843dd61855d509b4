[package]
name = "system-support"
version = "0.1.0"
edition = "2021"
publish = false

[dependencies]
async-trait = "0.1"
napi = "2"
napi-derive = "2"
serde = { version = "1", features = ["derive"] }
thiserror = "1"
