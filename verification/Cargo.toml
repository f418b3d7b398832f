[package]
name = "conversation_ingest"
version = "0.1.0"
edition = "2021"
publish = false

[dependencies]
anyhow = "*"
aws-config = "*"
aws_lambda_events = "*"
aws-sdk-s3 = "*"
chrono = "*"
futures = "*"
lambda_runtime = "*"
serde_json = "*"
tokio = { version = "*", features = ["macros", "rt"] }
uuid = { version = "*", features = ["v4"] }
