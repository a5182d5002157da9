[package]
name = "roa_core"
version = "0.1.0"
edition = "2021"
publish = false

[dependencies]
bytes = "0.5"
diesel = { version = "1.4", features = ["r2d2"] }
futures = "0.3"
http = "0.2"
hyper = "0.13"
r2d2 = "0.8"
tokio = { version = "0.2", features = ["blocking", "rt-core", "tcp"] }
