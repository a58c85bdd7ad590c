[package]
name = "subseq_x402"
version = "0.1.0"
edition = "2021"
publish = false

[dependencies]
anyhow = "1"
axum = { version = "0.8", default-features = false, features = ["json", "query", "tokio", "http1", "matched-path", "original-uri"] }
base64 = "0.22"
chrono = { version = "0.4", default-features = false, features = ["serde", "std"] }
once_cell = "1"
reqwest = { version = "0.12", default-features = false, features = ["json"] }
serde = { version = "1", features = ["derive"] }
serde_json = "1"
sqlx = { version = "0.8", default-features = false, features = ["runtime-tokio", "postgres", "uuid", "chrono", "json", "migrate"] }
tracing = "0.1"
uuid = { version = "1", features = ["v4", "serde"] }
x402-types = "*"
