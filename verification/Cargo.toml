[package]
name = "tsconfig_init"
version = "0.1.0"
edition = "2021"
publish = false

[dependencies]
clap = "4"
dialoguer = "0.11"
napi = "2"
napi-derive = "2"
serde_json = { version = "1", features = ["preserve_order"] }
