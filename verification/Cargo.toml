[package]
name = "lambda_log_viewer"
version = "0.1.0"
edition = "2021"
publish = false

[dependencies]
anyhow = "=1.0.104"
aws-config = "=1.13.0"
aws-sdk-cloudwatchlogs = "=1.160.0"
aws-types = "=1.7.0"
chrono = "=0.4.45"
crossterm = "=0.29.0"
ratatui = "=0.30.2"
serde_json = "=1.0.154"
tokio = { version = "=1.54.1", features = ["full"] }
