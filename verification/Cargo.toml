[package]
name = "trasy"
version = "0.1.0"
edition = "2021"
publish = false

[dependencies]
tracing-error = "0.2"
tracing-subscriber = "0.3"
opentelemetry = "0.23"
opentelemetry_sdk = { version = "0.23", features = ["rt-tokio"] }
opentelemetry-otlp = { version = "0.16", default-features = false, features = ["trace", "http-proto"] }
tracing-opentelemetry = "0.24"
