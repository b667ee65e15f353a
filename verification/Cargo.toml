[package]
name = "fileserve"
version = "0.1.0"
edition = "2021"
publish = false

[dependencies]
mime_guess = "2"
axum = "0.4"
hyper = "0.14"
tokio = { version = "1", features = ["macros", "rt", "fs"] }
tracing = "0.1"
tracing-subscriber = { version = "0.3", features = ["env-filter"] }
tracing-opentelemetry = "0.17"
opentelemetry = { version = "0.17", features = ["rt-tokio"] }
opentelemetry-jaeger = { version = "0.16", features = ["rt-tokio", "collector_client"] }
