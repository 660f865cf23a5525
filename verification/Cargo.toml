[package]
name = "gantry_backend"
version = "0.1.0"
edition = "2021"
publish = false

[dependencies]
uuid = { version = "1", features = ["v4"] }
sha2 = "0.10"
rand = "0.8"
chrono = "0.4"
git2 = { version = "0.20", default-features = false }
serde = { version = "1", features = ["derive"] }
serde_json = "1"
tokio = { version = "1", features = ["full"] }
tokio-util = "0.7"
tokio-stream = { version = "0.1", features = ["sync"] }
sqlx = { version = "0.8", default-features = false, features = ["sqlite", "runtime-tokio", "chrono", "macros", "migrate"] }
tracing = "0.1"
async-trait = "0.1"
axum = { version = "0.8", features = ["ws"] }
bollard = "0.18"
bytes = "1"
futures-util = "0.3"
http-body-util = "0.1"
tar = "0.4"
metrics = "0.24"

[dev-dependencies]
tempfile = "3"
