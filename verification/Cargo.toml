[package]
name = "tracing_forest"
version = "0.1.0"
edition = "2021"
publish = false

[dependencies]
serde = "1"
tracing = "0.1"
