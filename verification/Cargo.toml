[package]
name = "rasterwave-node"
version = "0.5.0"
edition = "2021"
publish = false

[dependencies]
rasterwave = "0.5"
napi = { version = "3", default-features = false, features = ["napi8"] }
napi-derive = "3"
rayon = "1"
