[package]
name = "actix_otel_example"
version = "0.1.0"
edition = "2021"
publish = false

[dependencies]
actix-web = { version = "4.9", default-features = false, features = ["macros"] }
futures-util = "0.3"
once_cell = "1"
opentelemetry = { version = "0.24", features = ["metrics", "trace"] }
opentelemetry_sdk = { version = "0.24", features = ["metrics", "trace", "logs", "rt-tokio"] }
opentelemetry-otlp = { version = "0.17", features = ["grpc-tonic", "trace", "metrics", "logs"] }
opentelemetry-semantic-conventions = "0.16"
opentelemetry-stdout = "0.5"
opentelemetry-appender-tracing = "0.5"
opentelemetry-datadog = "0.12"
rand = "0.8"
serde = { version = "1", features = ["derive"] }
serde_json = "1"
tokio = { version = "1", features = ["macros", "rt-multi-thread", "time"] }
toml = "0.8"
tracing = { version = "0.1", features = ["log"] }
tracing-opentelemetry = "0.25"
tracing-subscriber = "0.3"
