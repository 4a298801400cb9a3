[package]
name = "pagetally_server"
version = "0.1.0"
edition = "2021"
publish = false

[dependencies]
sha2 = "0.10"
chrono = { version = "0.4", default-features = false, features = ["clock", "std", "serde"] }
serde = { version = "1", features = ["derive"] }
serde_json = "1"
thiserror = "2"
anyhow = "1"
axum = "0.8"
axum-prometheus = "0.8"
tokio = { version = "1", features = ["macros", "rt-multi-thread", "net", "time"] }
tower_governor = "0.7"
tower-http = { version = "0.6", features = ["cors", "request-id", "set-header", "timeout", "trace", "util"] }
tracing = "0.1"
tracing-subscriber = { version = "0.3", features = ["env-filter", "fmt"] }
sqlx = { version = "0.8", default-features = false, features = ["runtime-tokio", "postgres", "json", "chrono", "migrate"] }
