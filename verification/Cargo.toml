[package]
name = "axum-sample"
version = "0.1.0"
edition = "2021"
publish = false

[dependencies]
garde = { version = "*", features = ["derive", "email"] }
serde = { version = "1", features = ["derive"] }
axum = "0.8"
tokio = { version = "1", features = ["full"] }
sqlx = { version = "*", default-features = false, features = ["runtime-tokio", "postgres", "derive", "macros"] }
thiserror = "*"
shaku = "*"
async-trait = "*"
anyhow = "*"
derive-new = "*"
tracing = "*"
tracing-subscriber = "*"
tower-http = { version = "*", features = ["trace"] }
opentelemetry = "*"
opentelemetry_sdk = "*"
opentelemetry-otlp = { version = "*", features = ["grpc-tonic"] }
opentelemetry-semantic-conventions = { version = "*", features = ["semconv_experimental"] }
tracing-opentelemetry = "*"
