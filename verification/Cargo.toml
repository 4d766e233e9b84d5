[package]
name = "engine_router"
version = "0.1.0"
edition = "2021"
publish = false

[dependencies]
uuid = "1"
nuid = "0.5"
tokio = { version = "1", features = ["full"] }
hyper = { version = "0.14", features = ["full"] }
futures = "0.3"
parking_lot = "0.12"
