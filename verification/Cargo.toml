[package]
name = "llm_runner_rs"
version = "0.1.0"
edition = "2021"
publish = false

[dependencies]
anyhow = "=1.0.104"
axum = "=0.8.9"
clap = { version = "=4.6.7", features = ["derive"] }
config = "=0.15.27"
dotenv = "=0.15.0"
futures = "=0.3.34"
llama-cpp-2 = "=0.1.160"
serde = { version = "=1.0.229", features = ["derive"] }
thiserror = "=2.0.21"
tokio = { version = "=1.54.1", features = ["full"] }
tower-http = { version = "=0.7.1", features = ["timeout", "trace"] }
tracing = "=0.1.44"
tracing-subscriber = { version = "=0.3.23", features = ["env-filter"] }
validator = { version = "=0.21.0", features = ["derive"] }
