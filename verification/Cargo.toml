[package]
name = "merix"
version = "0.1.0"
edition = "2021"
publish = false

[dependencies]
uuid = { version = "1.10", features = ["v4", "serde"] }
chrono = { version = "0.4", features = ["serde"] }
dashmap = "6.1"
serde = { version = "1.0", features = ["derive"] }
serde_json = "1.0"
anyhow = "1.0"
async-trait = "0.1"
tokio = { version = "1", features = ["full"] }
tracing = "0.1"
tracing-subscriber = { version = "0.3", features = ["env-filter", "json", "chrono"] }
tracing-appender = "0.2"
clap = { version = "4.5", features = ["derive"] }
sysinfo = "*"
nvml-wrapper = "*"
llama-cpp-2 = "0.1"
