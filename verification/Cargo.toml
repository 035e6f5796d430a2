[package]
name = "sam_rust_api"
version = "0.1.0"
edition = "2021"
publish = false

[dependencies]
serde = { version = "1", features = ["derive"] }
serde_json = "1"
svix-ksuid = "*"
aws-config = "*"
aws-sdk-dynamodb = "*"
aws_lambda_events = { version = "*", default-features = false, features = ["apigw"] }
lambda_runtime = "*"
tokio = { version = "1", features = ["macros", "rt-multi-thread"] }
tracing = "0.1"
tracing-subscriber = { version = "0.3", features = ["fmt", "json"] }
