[package]
name = "spanmetrics"
version = "0.1.0"
edition = "2021"
publish = false

[dependencies]
metrics = "0.12"
quanta = "0.4"
once_cell = "1"
tracing = "0.1"
tracing-core = "0.1"
tracing-subscriber = "0.2"
