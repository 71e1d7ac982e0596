[package]
name = "http_metrics"
version = "0.1.0"
edition = "2021"
publish = false

[dependencies]
prometheus = { version = "0.13", default-features = false }
actix-web = { version = "4", default-features = false }
actix-web-lab = "0.20"
