[package]
name = "transaction_pipeline"
version = "0.1.0"
edition = "2021"
publish = false

[dependencies]
axum = "*"
chrono = { version = "0.4", features = ["serde"] }
clickhouse = { version = "0.13", features = ["chrono", "uuid"] }
dotenvy = "*"
futures = "*"
metrics = "*"
metrics-exporter-prometheus = { version = "*", default-features = false }
rdkafka = { version = "*", default-features = false, features = ["tokio"] }
serde = { version = "1", features = ["derive"] }
serde_json = "1"
tokio = { version = "1", features = ["macros", "net", "rt-multi-thread"] }
tracing = "*"
tracing-subscriber = "*"
uuid = { version = "1", features = ["serde", "v4"] }
