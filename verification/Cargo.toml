[package]
name = "pbtb_rust"
version = "0.1.0"
edition = "2021"
publish = false

[dependencies]
aws-config = { version = "=1.13.0", features = ["behavior-version-latest"] }
aws-sdk-dynamodb = "=1.134.0"
aws-sdk-ecs = "=1.154.0"
aws_lambda_events = { version = "=1.2.1", default-features = false, features = ["eventbridge"] }
config = "*"
lambda_runtime = "=1.5.0"
serde = { version = "=1.0.229", features = ["derive"] }
serde_json = "=1.0.154"
tokio = { version = "=1.54.1", features = ["macros", "rt-multi-thread"] }
